//! The rules of a pair, over plain values: what an event calls for, what each step
//! makes of the pair, and what holds of a pair at all times.

use crate::chan::Slot;
use vstd::prelude::*;

verus! {

/// One of the two endpoints of a pair: `L` faces the listener, `S` the connector.
#[derive(Clone, Copy, Debug, PartialEq, Eq, Structural)]
pub enum Side {
    L,
    S,
}

impl Side {
    /// The opposite side.
    pub open spec fn flip(self) -> Side {
        match self {
            Side::L => Side::S,
            Side::S => Side::L,
        }
    }

    /// The bit that tells the side's token from its pair's other token.
    pub open spec fn bit(self) -> int {
        match self {
            Side::L => 0,
            Side::S => 1,
        }
    }
}

/// A pair as the engine's rules see it: the states of its two slots, which of them
/// the notifier watches, its tokens, its counters and the size of its buffer.
#[derive(Clone, Copy, Debug, PartialEq, Eq, Structural)]
pub struct PairInfo {
    /// The pair's identifier, which no other pair of the engine ever has.
    pub conn_id: usize,
    /// The state of the listener side's slot.
    pub l: Slot,
    /// The state of the connector side's slot.
    pub s: Slot,
    /// Whether the listener side is subscribed, under `tok_l`, as far as the
    /// engine's own calls and the notifier's answers to them tell.
    pub l_watched: bool,
    /// Whether the connector side is subscribed, under `tok_s`.
    pub s_watched: bool,
    /// The listener side's token.
    pub tok_l: usize,
    /// The connector side's token.
    pub tok_s: usize,
    /// The bytes relayed from the listener side to the connector side.
    pub bytes_l_to_s: usize,
    /// The bytes relayed from the connector side to the listener side.
    pub bytes_s_to_l: usize,
    /// The size of the relay buffer, in bytes.
    pub buffer: usize,
}

/// What a readiness event for one side of a pair calls for.
#[derive(Clone, Copy, Debug, PartialEq, Eq, Structural)]
pub enum Plan {
    /// The pair is whole: relay from the side of the event.
    Relay,
    /// The side is pending: take a handshake step, and relay if that makes the
    /// pair whole.
    Advance,
    /// The side is active and waits for the other: nothing to do.
    Nothing,
}

/// What follows a handshake step on one side of a pair.
#[derive(Clone, Copy, Debug, PartialEq, Eq, Structural)]
pub enum FollowUp {
    /// The side is still pending: nothing changes.
    Nothing,
    /// The side is active now and so is the other: the other side, which was
    /// paused, is subscribed again.
    Resume,
    /// The side is active now and the other is not: the side is paused.
    Pause,
}

/// What follows a handshake step that has or has not completed the handshake,
/// beside another side that is or is not active.
pub open spec fn follow_up_of(done: bool, other_active: bool) -> FollowUp {
    if !done {
        FollowUp::Nothing
    } else if other_active {
        FollowUp::Resume
    } else {
        FollowUp::Pause
    }
}

/// Decides what follows a handshake step.
pub fn follow_up(done: bool, other_active: bool) -> (r: FollowUp)
    ensures
        r == follow_up_of(done, other_active),
{
    if !done {
        FollowUp::Nothing
    } else if other_active {
        FollowUp::Resume
    } else {
        FollowUp::Pause
    }
}

/// `a + b`, held at the largest `usize` where the sum does not fit.
pub open spec fn capped_sum(a: usize, b: usize) -> usize {
    if a + b <= usize::MAX {
        (a + b) as usize
    } else {
        usize::MAX
    }
}

impl PairInfo {
    /// The state of the slot of side `x`.
    pub open spec fn slot(self, x: Side) -> Slot {
        match x {
            Side::L => self.l,
            Side::S => self.s,
        }
    }

    /// Whether side `x` is subscribed.
    pub open spec fn watched(self, x: Side) -> bool {
        match x {
            Side::L => self.l_watched,
            Side::S => self.s_watched,
        }
    }

    /// The token of side `x`.
    pub open spec fn token(self, x: Side) -> usize {
        match x {
            Side::L => self.tok_l,
            Side::S => self.tok_s,
        }
    }

    /// The bytes relayed so far from side `x` to the other side.
    pub open spec fn moved_from(self, x: Side) -> usize {
        match x {
            Side::L => self.bytes_l_to_s,
            Side::S => self.bytes_s_to_l,
        }
    }

    /// The pair with the slot of side `x` in the state `slot`.
    pub open spec fn with_slot(self, x: Side, slot: Slot) -> PairInfo {
        match x {
            Side::L => PairInfo { l: slot, ..self },
            Side::S => PairInfo { s: slot, ..self },
        }
    }

    /// The pair with side `x` subscribed or not.
    pub open spec fn with_watched(self, x: Side, watched: bool) -> PairInfo {
        match x {
            Side::L => PairInfo { l_watched: watched, ..self },
            Side::S => PairInfo { s_watched: watched, ..self },
        }
    }

    /// The pair with `bytes` as the count of the bytes relayed from side `x`.
    pub open spec fn with_moved_from(self, x: Side, bytes: usize) -> PairInfo {
        match x {
            Side::L => PairInfo { bytes_l_to_s: bytes, ..self },
            Side::S => PairInfo { bytes_s_to_l: bytes, ..self },
        }
    }

    /// What an event for side `x` calls for.
    pub open spec fn plan(self, x: Side) -> Plan {
        if self.is_both() {
            Plan::Relay
        } else if self.slot(x) == Slot::Pending {
            Plan::Advance
        } else {
            Plan::Nothing
        }
    }

    /// Decides what an event for side `x` calls for.
    pub fn plan_for(&self, x: Side) -> (r: Plan)
        ensures
            r == self.plan(x),
    {
        let this = match x {
            Side::L => self.l,
            Side::S => self.s,
        };
        if self.l == Slot::Active && self.s == Slot::Active {
            Plan::Relay
        } else if this == Slot::Pending {
            Plan::Advance
        } else {
            Plan::Nothing
        }
    }

    /// How many of the two slots are active.
    pub open spec fn actives(self) -> nat {
        let l: nat = if self.l == Slot::Active { 1 } else { 0 };
        let s: nat = if self.s == Slot::Active { 1 } else { 0 };
        l + s
    }

    /// Both slots are active: the pair relays.
    pub open spec fn is_both(self) -> bool {
        self.l == Slot::Active && self.s == Slot::Active
    }

    /// One slot is active and waits for the other, which is pending.
    pub open spec fn is_half(self) -> bool {
        ||| self.l == Slot::Active && self.s == Slot::Pending
        ||| self.l == Slot::Pending && self.s == Slot::Active
    }

    /// A slot is lost: the pair is to be removed.
    pub open spec fn is_dead(self) -> bool {
        self.l == Slot::Lost || self.s == Slot::Lost
    }

    /// The tokens are those of the pair's identifier: twice the identifier for the
    /// listener side, and one more for the connector side.
    pub open spec fn tokens_ok(self) -> bool {
        &&& self.tok_l == 2 * self.conn_id
        &&& self.tok_s == 2 * self.conn_id + 1
    }

    /// No slot is caught in the middle of a move.
    pub open spec fn at_rest(self) -> bool {
        self.l != Slot::Swapping && self.s != Slot::Swapping
    }

    /// Side `x` is watched exactly when the engine wants events for it: while it is
    /// pending, and while it is active together with the other side. An active side
    /// that waits for the other is paused; a lost one holds nothing to watch.
    pub open spec fn watch_ok(self, x: Side) -> bool {
        self.watched(x) == (self.slot(x) == Slot::Pending || self.is_both())
    }

    /// What holds of a pair in the table whenever no event is being handled.
    pub open spec fn live(self) -> bool {
        &&& self.tokens_ok()
        &&& self.l == Slot::Pending || self.l == Slot::Active
        &&& self.s == Slot::Pending || self.s == Slot::Active
        &&& self.watch_ok(Side::L)
        &&& self.watch_ok(Side::S)
        &&& !self.is_both() ==> self.bytes_l_to_s == 0 && self.bytes_s_to_l == 0
    }

    /// What holds of a pair even while it waits to be removed.
    pub open spec fn sound(self) -> bool {
        &&& self.tokens_ok()
        &&& self.at_rest()
        &&& self.l == Slot::Lost ==> !self.l_watched
        &&& self.s == Slot::Lost ==> !self.s_watched
        &&& !self.is_both() ==> self.bytes_l_to_s == 0 && self.bytes_s_to_l == 0
    }

    /// The handshake step on the pending side `x`, with what follows it at once:
    /// when the step completes the handshake, the other side is resumed if it is
    /// active, and else side `x` is paused. `ok` tells whether the pair goes on.
    pub open spec fn advanced(self, x: Side, post: PairInfo, ok: bool) -> bool {
        let done = self.with_slot(x, Slot::Active);
        if ok {
            ||| post == self
            ||| self.slot(x.flip()) == Slot::Active && post == done.with_watched(x.flip(), true)
            ||| self.slot(x.flip()) != Slot::Active && post == done.with_watched(x, false)
        } else {
            ||| post == self.with_slot(x, Slot::Lost).with_watched(x, false)
            ||| post == done
        }
    }

    /// A relay from side `x`: nothing but the count of the bytes moved from `x`
    /// changes, and that only grows. A relay that fails leaves the count alone.
    pub open spec fn relayed(self, x: Side, post: PairInfo, ok: bool) -> bool {
        if ok {
            &&& post == self.with_moved_from(x, post.moved_from(x))
            &&& post.moved_from(x) >= self.moved_from(x)
        } else {
            post == self
        }
    }

    /// A readiness event for side `x` of a live pair: a relay from `x` when the pair
    /// is whole; else a handshake step when `x` is pending, followed by a relay when
    /// that step made the pair whole; else nothing.
    pub open spec fn stepped(self, x: Side, post: PairInfo, ok: bool) -> bool {
        if self.is_both() {
            self.relayed(x, post, ok)
        } else if self.slot(x) != Slot::Pending {
            ok && post == self
        } else {
            let whole = self.with_slot(x, Slot::Active).with_watched(x.flip(), true);
            ||| self.advanced(x, post, ok) && !post.is_both()
            ||| self.advanced(x, post, ok) && !ok
            ||| self.slot(x.flip()) == Slot::Active && whole.relayed(x, post, ok)
        }
    }

    /// The pair that is made of two slots in the states `l` and `s`, neither lost,
    /// under the identifier `conn_id`: nothing relayed yet, and each side watched
    /// unless it is active and has to wait for the other.
    pub open spec fn fresh(conn_id: usize, l: Slot, s: Slot, buffer: usize) -> PairInfo {
        PairInfo {
            conn_id,
            l,
            s,
            l_watched: l == Slot::Pending || s == Slot::Active,
            s_watched: s == Slot::Pending || l == Slot::Active,
            tok_l: (2 * conn_id) as usize,
            tok_s: (2 * conn_id + 1) as usize,
            bytes_l_to_s: 0,
            bytes_s_to_l: 0,
            buffer,
        }
    }

    /// The first look at side `x` of a pair that was just made: a handshake step if
    /// the side is pending, and nothing if it is active already.
    pub open spec fn probed_side(self, x: Side, post: PairInfo, ok: bool) -> bool {
        if self.slot(x) == Slot::Pending {
            self.advanced(x, post, ok)
        } else {
            ok && post == self
        }
    }

    /// The first look at a pair that was just made: at its listener side, which
    /// leaves the pair as `mid`, and then, unless that ended the pair, at its
    /// connector side.
    pub open spec fn probed(self, mid: PairInfo, post: PairInfo, ok: bool) -> bool {
        ||| self.probed_side(Side::L, mid, true) && mid.probed_side(Side::S, post, ok)
        ||| self.probed_side(Side::L, mid, false) && post == mid && !ok
    }

    /// Both subscriptions ended, as before the pair is removed.
    pub open spec fn released(self) -> PairInfo {
        self.with_watched(Side::L, false).with_watched(Side::S, false)
    }

    /// A relay is planned for a whole pair only, and a handshake step only for a
    /// side that is pending.
    pub proof fn lemma_plan(self, x: Side)
        ensures
            self.plan(x) == Plan::Relay <==> self.is_both(),
            self.plan(x) == Plan::Advance ==> self.slot(x) == Slot::Pending,
            self.is_half() ==> self.plan(x) != Plan::Relay,
    {
    }

    /// A fresh pair is live.
    pub proof fn lemma_fresh_is_live(conn_id: usize, l: Slot, s: Slot, buffer: usize)
        requires
            2 * conn_id + 1 <= usize::MAX,
            l == Slot::Pending || l == Slot::Active,
            s == Slot::Pending || s == Slot::Active,
        ensures
            Self::fresh(conn_id, l, s, buffer).live(),
    {
    }

    /// The first look at a fresh pair leaves it fresh, for the states that its slots
    /// have then, unless it ends the pair; and no slot is left in the middle of a
    /// move either way.
    pub proof fn lemma_probe_keeps_fresh(self, mid: PairInfo, post: PairInfo, ok: bool)
        requires
            self.live(),
            self.bytes_l_to_s == 0 && self.bytes_s_to_l == 0,
            self.probed(mid, post, ok),
        ensures
            post.sound(),
            ok ==> post.live(),
            ok ==> post == Self::fresh(self.conn_id, post.l, post.s, self.buffer),
    {
    }

    /// A live pair never shows a slot in the middle of a move, and none that is lost.
    pub proof fn lemma_live_is_sound(self)
        requires
            self.live(),
        ensures
            self.sound(),
            self.at_rest(),
            !self.is_dead(),
    {
    }

    /// Each side of a live pair is watched under twice the pair's identifier plus
    /// the side's bit, unless it is the active side of a pair whose other side is
    /// still pending, which is paused.
    pub proof fn lemma_live_watches(self, x: Side)
        requires
            self.live(),
        ensures
            self.token(x) == 2 * self.conn_id + x.bit(),
            !(self.slot(x) == Slot::Active && self.is_half()) ==> self.watched(x),
            self.slot(x) == Slot::Active && self.is_half() ==> !self.watched(x),
    {
    }

    /// A slot that is lost is not watched, also while its pair waits to be removed.
    pub proof fn lemma_lost_is_not_watched(self, x: Side)
        requires
            self.sound(),
            self.slot(x) == Slot::Lost,
        ensures
            !self.watched(x),
    {
    }

    /// An event leaves a live pair either live or, when it ends the pair, at least
    /// sound: no slot is ever left in the middle of a move.
    pub proof fn lemma_step_keeps_order(self, x: Side, post: PairInfo, ok: bool)
        requires
            self.live(),
            self.stepped(x, post, ok),
        ensures
            post.sound(),
            ok ==> post.live(),
            post.conn_id == self.conn_id,
            post.tok_l == self.tok_l,
            post.tok_s == self.tok_s,
            post.buffer == self.buffer,
    {
    }

    /// The byte counters never go down.
    pub proof fn lemma_step_counts_up(self, x: Side, post: PairInfo, ok: bool)
        requires
            self.live(),
            self.stepped(x, post, ok),
        ensures
            post.bytes_l_to_s >= self.bytes_l_to_s,
            post.bytes_s_to_l >= self.bytes_s_to_l,
            post.moved_from(x.flip()) == self.moved_from(x.flip()),
    {
    }

    /// Bytes move only through a pair that is whole: an event that leaves one slot
    /// short of active leaves both counters as they were, at zero.
    pub proof fn lemma_no_relay_unless_whole(self, x: Side, post: PairInfo, ok: bool)
        requires
            self.live(),
            self.stepped(x, post, ok),
            !post.is_both(),
        ensures
            post.bytes_l_to_s == 0,
            post.bytes_s_to_l == 0,
            self.bytes_l_to_s == 0,
            self.bytes_s_to_l == 0,
    {
    }
}

} // verus!
