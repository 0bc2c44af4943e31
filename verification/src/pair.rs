//! A pair of endpoints, with its buffer and its counters, and the steps that it
//! takes.

use crate::chan::{try_proceed, Chan, MidChan, Pollable, Slot, State};
use crate::error::{failure_of, FwError, FwPairError};
use crate::model::{capped_sum, follow_up, follow_up_of, FollowUp, PairInfo, Plan, Side};
use crate::relay::{handle_rw, relayed_all};
use std::io::Error as IoError;
use mio::Poll;
use std::fmt::Debug;
use vstd::prelude::*;

verus! {

/// One inbound connection paired with one outbound connection.
#[verifier::reject_recursive_types(Le)]
#[verifier::reject_recursive_types(Lc)]
#[verifier::reject_recursive_types(Lp)]
#[verifier::reject_recursive_types(Se)]
#[verifier::reject_recursive_types(Sc)]
#[verifier::reject_recursive_types(Sp)]
pub struct Pair<
    Le: Debug,
    Lc: Chan<Err = Le> + Pollable,
    Lp: MidChan<C = Lc, Err = Le> + Pollable,
    Se: Debug,
    Sc: Chan<Err = Se> + Pollable,
    Sp: MidChan<C = Sc, Err = Se> + Pollable,
> {
    conn_id: usize,
    ca: State<Le, Lc, Lp>,
    cb: State<Se, Sc, Sp>,
    tx: usize,
    rx: usize,
    tok_a: usize,
    tok_b: usize,
    b: Vec<u8>,
    watched_a: bool,
    watched_b: bool,
}

impl<
    Le: Debug,
    Lc: Chan<Err = Le> + Pollable,
    Lp: MidChan<C = Lc, Err = Le> + Pollable,
    Se: Debug,
    Sc: Chan<Err = Se> + Pollable,
    Sp: MidChan<C = Sc, Err = Se> + Pollable,
> View for Pair<Le, Lc, Lp, Se, Sc, Sp> {
    type V = PairInfo;

    closed spec fn view(&self) -> PairInfo {
        PairInfo {
            conn_id: self.conn_id,
            l: self.ca.slot(),
            s: self.cb.slot(),
            l_watched: self.watched_a,
            s_watched: self.watched_b,
            tok_l: self.tok_a,
            tok_s: self.tok_b,
            bytes_l_to_s: self.tx,
            bytes_s_to_l: self.rx,
            buffer: self.b.len(),
        }
    }
}

/// `a + b`, held at the largest `usize`.
pub fn add_capped(a: usize, b: usize) -> (r: usize)
    ensures
        r == capped_sum(a, b),
{
    if b > usize::MAX - a {
        usize::MAX
    } else {
        a + b
    }
}

impl<
    Le: Debug,
    Lc: Chan<Err = Le> + Pollable,
    Lp: MidChan<C = Lc, Err = Le> + Pollable,
    Se: Debug,
    Sc: Chan<Err = Se> + Pollable,
    Sp: MidChan<C = Sc, Err = Se> + Pollable,
> Pair<Le, Lc, Lp, Se, Sc, Sp> {
    /// The listener side's slot, with what it holds.
    pub closed spec fn l(&self) -> State<Le, Lc, Lp> {
        self.ca
    }

    /// The connector side's slot, with what it holds.
    pub closed spec fn s(&self) -> State<Se, Sc, Sp> {
        self.cb
    }

    /// The bytes in the relay buffer.
    pub closed spec fn buf(&self) -> Seq<u8> {
        self.b@
    }

    /// The view shows the states of the two slots and the size of the buffer.
    pub proof fn lemma_view(&self)
        ensures
            self@.l == self.l().slot(),
            self@.s == self.s().slot(),
            self@.buffer == self.buf().len(),
    {
        assert(self.b.len() == self.b@.len());
    }

    /// The two pairs hold the same and look the same.
    pub open spec fn same(&self, other: &Self) -> bool {
        &&& self@ == other@
        &&& self.l() == other.l()
        &&& self.s() == other.s()
        &&& self.buf() == other.buf()
    }

    /// A relay from side `x` of a whole pair, which leaves it as `post`: the bytes
    /// are moved between the channels of the two slots, through the pair's buffer,
    /// until `x` has nothing more ready, and what was moved is added, held at the
    /// largest `usize`, to the count of the direction. A relay that ends the pair
    /// leaves the counts alone, and `failure` is what ended it, seen from the pair.
    pub open spec fn relay_calls(
        &self,
        x: Side,
        post: &Self,
        failure: Option<FwPairError<Le, Se>>,
    ) -> bool {
        &&& self.l() is Active
        &&& self.s() is Active
        &&& post.l() is Active
        &&& post.s() is Active
        &&& match x {
            Side::L => exists|moved: Result<Option<usize>, FwPairError<Le, Se>>|
                {
                    &&& #[trigger] relayed_all(
                        self.l()->Active_0,
                        self.s()->Active_0,
                        self.buf(),
                        0,
                        post.l()->Active_0,
                        post.s()->Active_0,
                        post.buf(),
                        moved,
                    )
                    &&& match moved {
                        Ok(Some(n)) => failure is None && post@ == self@.with_moved_from(
                            x,
                            capped_sum(self@.bytes_l_to_s, n),
                        ),
                        Ok(None) => failure is None && post@ == self@,
                        Err(e) => failure == Some(e) && post@ == self@,
                    }
                },
            Side::S => exists|moved: Result<Option<usize>, FwPairError<Se, Le>>|
                {
                    &&& #[trigger] relayed_all(
                        self.s()->Active_0,
                        self.l()->Active_0,
                        self.buf(),
                        0,
                        post.s()->Active_0,
                        post.l()->Active_0,
                        post.buf(),
                        moved,
                    )
                    &&& match moved {
                        Ok(Some(n)) => failure is None && post@ == self@.with_moved_from(
                            x,
                            capped_sum(self@.bytes_s_to_l, n),
                        ),
                        Ok(None) => failure is None && post@ == self@,
                        Err(e) => failure == Some(e.swapped()) && post@ == self@,
                    }
                },
        }
    }

    /// A handshake step on the pending side `x`, with what follows it, which leaves
    /// the pair as `post`. Nothing but the slot of `x` and the two records of what
    /// is watched can differ.
    pub open spec fn proceed_calls(
        &self,
        poll: &Poll,
        x: Side,
        post: &Self,
        failure: Option<FwPairError<Le, Se>>,
    ) -> bool {
        &&& post.buf() == self.buf()
        &&& post@ == (PairInfo {
            l: post@.l,
            s: post@.s,
            l_watched: post@.l_watched,
            s_watched: post@.s_watched,
            ..self@
        })
        &&& match x {
            Side::L => {
                &&& post.s() == self.s()
                &&& exists|r: Result<(), FwError<Le>>|
                    {
                        &&& #[trigger] advance_calls(
                            poll,
                            self.l(),
                            self@.l_watched,
                            self.s(),
                            self@.s_watched,
                            self@.tok_s,
                            post.l(),
                            post@.l_watched,
                            post@.s_watched,
                            r,
                        )
                        &&& failure == match r {
                            Ok(_) => None,
                            Err(e) => Some(FwPairError::<Le, Se>::L(e)),
                        }
                    }
            },
            Side::S => {
                &&& post.l() == self.l()
                &&& exists|r: Result<(), FwError<Se>>|
                    {
                        &&& #[trigger] advance_calls(
                            poll,
                            self.s(),
                            self@.s_watched,
                            self.l(),
                            self@.l_watched,
                            self@.tok_l,
                            post.s(),
                            post@.s_watched,
                            post@.l_watched,
                            r,
                        )
                        &&& failure == match r {
                            Ok(_) => None,
                            Err(e) => Some(FwPairError::<Le, Se>::S(e)),
                        }
                    }
            },
        }
    }

    /// One readiness event for side `x`, which leaves the pair as `post`: what the
    /// plan for the event calls for, and a relay after a handshake step that made
    /// the pair whole.
    pub open spec fn event_calls(
        &self,
        poll: &Poll,
        x: Side,
        post: &Self,
        failure: Option<FwPairError<Le, Se>>,
    ) -> bool {
        match self@.plan(x) {
            Plan::Relay => self.relay_calls(x, post, failure),
            Plan::Nothing => post.same(self) && failure is None,
            Plan::Advance => exists|mid: Self, stopped: Option<FwPairError<Le, Se>>|
                {
                    &&& #[trigger] self.proceed_calls(poll, x, &mid, stopped)
                    &&& if stopped is None && mid@.is_both() {
                        mid.relay_calls(x, post, failure)
                    } else {
                        post.same(&mid) && failure == stopped
                    }
                },
        }
    }

    /// The first look at side `x` of a pair that was just made, which leaves the
    /// pair as `post`: a handshake step if the side is pending, nothing if not.
    pub open spec fn probe_side_calls(
        &self,
        poll: &Poll,
        x: Side,
        post: &Self,
        failure: Option<FwPairError<Le, Se>>,
    ) -> bool {
        if self@.slot(x) == Slot::Active {
            post.same(self) && failure is None
        } else {
            self.proceed_calls(poll, x, post, failure)
        }
    }

    /// The first look at a pair that was just made, which leaves it as `post`: at
    /// the listener side first, and then, unless that ended the pair, at the
    /// connector side.
    pub open spec fn probe_calls(
        &self,
        poll: &Poll,
        post: &Self,
        failure: Option<FwPairError<Le, Se>>,
    ) -> bool {
        exists|mid: Self, stopped: Option<FwPairError<Le, Se>>|
            {
                &&& #[trigger] self.probe_side_calls(poll, Side::L, &mid, stopped)
                &&& if stopped is None {
                    mid.probe_side_calls(poll, Side::S, post, failure)
                } else {
                    post.same(&mid) && failure == stopped
                }
            }
    }

    /// The end of both subscriptions, which leaves the pair as `post`: one call of
    /// `deregister` for each slot that holds something, the listener side first,
    /// with the notifier's answers `r`.
    pub open spec fn release_calls(
        &self,
        poll: &Poll,
        post: &Self,
        r: (Result<(), IoError>, Result<(), IoError>),
    ) -> bool {
        &&& post.l() == self.l()
        &&& post.s() == self.s()
        &&& post.buf() == self.buf()
        &&& post@ == self@.released()
        &&& self.l().deregister_call(poll, r.0)
        &&& self.s().deregister_call(poll, r.1)
    }

    /// The making of the pair `conn_id` out of the slots `ca` and `cb`: both are
    /// subscribed, under twice the identifier and one more, the listener side
    /// first; then the one that is active while the other is not has its
    /// subscription ended again. The first call that the notifier refuses ends the
    /// making, as a failure of the side that the call was for. The pair that is
    /// made holds the two slots as they were given, and a buffer of `buffer` zeros.
    pub open spec fn open_calls(
        poll: &Poll,
        conn_id: usize,
        ca: State<Le, Lc, Lp>,
        cb: State<Se, Sc, Sp>,
        buffer: usize,
        r: Result<Self, FwPairError<Le, Se>>,
    ) -> bool {
        exists|first: Result<(), IoError>|
            {
                &&& #[trigger] ca.register_call(poll, (2 * conn_id) as usize, first)
                &&& match first {
                    Err(e) => r matches Err(FwPairError::L(FwError::Register(x))) && x == e,
                    Ok(_) => exists|second: Result<(), IoError>|
                        {
                            &&& #[trigger] cb.register_call(
                                poll,
                                (2 * conn_id + 1) as usize,
                                second,
                            )
                            &&& match second {
                                Err(e) => r matches Err(FwPairError::S(FwError::Register(x)))
                                    && x == e,
                                Ok(_) => Self::pause_calls(poll, conn_id, ca, cb, buffer, r),
                            }
                        },
                }
            }
    }

    /// The last part of the making of a pair: the pause of the side that is active
    /// while the other is not, if there is one.
    pub open spec fn pause_calls(
        poll: &Poll,
        conn_id: usize,
        ca: State<Le, Lc, Lp>,
        cb: State<Se, Sc, Sp>,
        buffer: usize,
        r: Result<Self, FwPairError<Le, Se>>,
    ) -> bool {
        let made = {
            &&& r matches Ok(pair)
            &&& pair.l() == ca
            &&& pair.s() == cb
            &&& pair.buf() == Seq::new(buffer as nat, |i: int| 0u8)
            &&& pair@ == PairInfo::fresh(conn_id, ca.slot(), cb.slot(), buffer)
        };
        if ca.slot() == Slot::Active && cb.slot() != Slot::Active {
            exists|paused: Result<(), IoError>|
                {
                    &&& #[trigger] ca.deregister_call(poll, paused)
                    &&& match paused {
                        Ok(_) => made,
                        Err(e) => r matches Err(FwPairError::L(FwError::Register(x))) && x == e,
                    }
                }
        } else if cb.slot() == Slot::Active && ca.slot() != Slot::Active {
            exists|paused: Result<(), IoError>|
                {
                    &&& #[trigger] cb.deregister_call(poll, paused)
                    &&& match paused {
                        Ok(_) => made,
                        Err(e) => r matches Err(FwPairError::S(FwError::Register(x))) && x == e,
                    }
                }
        } else {
            made
        }
    }

    /// An event as the calls tell it is an event as the rules see it.
    pub proof fn lemma_event_follows_rules(
        &self,
        poll: &Poll,
        x: Side,
        post: &Self,
        failure: Option<FwPairError<Le, Se>>,
    )
        requires
            self@.live(),
            self.event_calls(poll, x, post, failure),
        ensures
            self@.stepped(x, post@, failure is None),
    {
        self.lemma_view();
        post.lemma_view();
        if self@.plan(x) == Plan::Advance {
            let (mid, stopped) = choose|mid: Self, stopped: Option<FwPairError<Le, Se>>|
                {
                    &&& #[trigger] self.proceed_calls(poll, x, &mid, stopped)
                    &&& if stopped is None && mid@.is_both() {
                        mid.relay_calls(x, post, failure)
                    } else {
                        post.same(&mid) && failure == stopped
                    }
                };
            mid.lemma_view();
            self.lemma_proceed_follows_rules(poll, x, &mid, stopped);
        }
    }

    /// A handshake step as the calls tell it is one as the rules see it.
    pub proof fn lemma_proceed_follows_rules(
        &self,
        poll: &Poll,
        x: Side,
        post: &Self,
        failure: Option<FwPairError<Le, Se>>,
    )
        requires
            self@.slot(x) == Slot::Pending,
            self@.slot(x.flip()) == Slot::Pending || self@.slot(x.flip()) == Slot::Active,
            self.proceed_calls(poll, x, post, failure),
        ensures
            self@.advanced(x, post@, failure is None),
    {
        self.lemma_view();
        post.lemma_view();
    }

    /// A pair that is made as the calls tell it is a fresh pair as the rules see it.
    pub proof fn lemma_open_follows_rules(
        poll: &Poll,
        conn_id: usize,
        ca: State<Le, Lc, Lp>,
        cb: State<Se, Sc, Sp>,
        buffer: usize,
        r: Result<Self, FwPairError<Le, Se>>,
    )
        requires
            Self::open_calls(poll, conn_id, ca, cb, buffer, r),
        ensures
            r matches Ok(pair) ==> pair@ == PairInfo::fresh(conn_id, ca.slot(), cb.slot(), buffer),
            r matches Err(e) ==> e is L || e is S,
    {
    }

    /// The first look at a pair as the calls tell it is one as the rules see it.
    pub proof fn lemma_probe_follows_rules(
        &self,
        poll: &Poll,
        post: &Self,
        failure: Option<FwPairError<Le, Se>>,
    )
        requires
            self@.live(),
            self.probe_calls(poll, post, failure),
        ensures
            exists|mid: PairInfo| #[trigger] self@.probed(mid, post@, failure is None),
    {
        self.lemma_view();
        post.lemma_view();
        let (mid, stopped) = choose|mid: Self, stopped: Option<FwPairError<Le, Se>>|
            {
                &&& #[trigger] self.probe_side_calls(poll, Side::L, &mid, stopped)
                &&& if stopped is None {
                    mid.probe_side_calls(poll, Side::S, post, failure)
                } else {
                    post.same(&mid) && failure == stopped
                }
            };
        mid.lemma_view();
        if self@.l != Slot::Active {
            self.lemma_proceed_follows_rules(poll, Side::L, &mid, stopped);
        }
        if stopped is None && mid@.s != Slot::Active {
            mid.lemma_proceed_follows_rules(poll, Side::S, post, failure);
        }
        assert(self@.probed(mid@, post@, failure is None));
    }

    /// While one side of a live pair is active and the other is pending, no byte
    /// moves: an event that does not make the pair whole leaves the active side's
    /// channel, and the buffer, as they were.
    pub proof fn lemma_half_pair_is_left_alone(
        &self,
        poll: &Poll,
        x: Side,
        post: &Self,
        failure: Option<FwPairError<Le, Se>>,
    )
        requires
            self@.live(),
            self@.is_half(),
            self.event_calls(poll, x, post, failure),
            !post@.is_both(),
        ensures
            self@.l == Slot::Active ==> post.l() == self.l(),
            self@.s == Slot::Active ==> post.s() == self.s(),
            post.buf() == self.buf(),
            post@.bytes_l_to_s == 0 && post@.bytes_s_to_l == 0,
    {
        self.lemma_view();
        post.lemma_view();
    }

    /// The pair as the rules see it.
    pub fn info(&self) -> (r: PairInfo)
        ensures
            r == self@,
    {
        PairInfo {
            conn_id: self.conn_id,
            l: self.ca.kind(),
            s: self.cb.kind(),
            l_watched: self.watched_a,
            s_watched: self.watched_b,
            tok_l: self.tok_a,
            tok_s: self.tok_b,
            bytes_l_to_s: self.tx,
            bytes_s_to_l: self.rx,
            buffer: self.b.len(),
        }
    }

    /// How many of the two slots are active.
    pub fn actives(&self) -> (r: usize)
        ensures
            r == self@.actives(),
    {
        let mut i: usize = 0;
        if self.ca.is_active() {
            i += 1;
        }
        if self.cb.is_active() {
            i += 1;
        }
        i
    }

    /// Relays from side `x` to the other side until `x` has nothing more ready, and
    /// adds what was moved to the counter of that direction.
    pub fn relay(&mut self, x: Side) -> (r: Result<(), FwPairError<Le, Se>>)
        requires
            old(self)@.is_both(),
        ensures
            old(self).relay_calls(x, final(self), failure_of(r)),
            old(self)@.relayed(x, final(self)@, r is Ok),
            r matches Err(e) ==> !(e is Lost),
    {
        match x {
            Side::L => {
                let moved = handle_rw(self.b.as_mut_slice(), self.ca.chan(), self.cb.chan());
                proof {
                    assert(relayed_all(
                        old(self).l()->Active_0,
                        old(self).s()->Active_0,
                        old(self).buf(),
                        0,
                        self.l()->Active_0,
                        self.s()->Active_0,
                        self.buf(),
                        moved,
                    ));
                }
                match moved {
                    Ok(count) => {
                        if let Some(n) = count {
                            self.tx = add_capped(self.tx, n);
                        }
                        proof {
                            assert(moved == Ok::<Option<usize>, FwPairError<Le, Se>>(count));
                            assert(relayed_all(
                                old(self).l()->Active_0,
                                old(self).s()->Active_0,
                                old(self).buf(),
                                0,
                                self.l()->Active_0,
                                self.s()->Active_0,
                                self.buf(),
                                moved,
                            ));
                            assert(old(self).relay_calls(x, self, None));
                        }
                        Ok(())
                    },
                    Err(e) => {
                        proof {
                            assert(old(self).relay_calls(x, self, Some(e)));
                        }
                        Err(e)
                    },
                }
            },
            Side::S => {
                let moved = handle_rw(self.b.as_mut_slice(), self.cb.chan(), self.ca.chan());
                proof {
                    assert(relayed_all(
                        old(self).s()->Active_0,
                        old(self).l()->Active_0,
                        old(self).buf(),
                        0,
                        self.s()->Active_0,
                        self.l()->Active_0,
                        self.buf(),
                        moved,
                    ));
                }
                match moved {
                    Ok(count) => {
                        if let Some(n) = count {
                            self.rx = add_capped(self.rx, n);
                        }
                        proof {
                            assert(moved == Ok::<Option<usize>, FwPairError<Se, Le>>(count));
                            assert(relayed_all(
                                old(self).s()->Active_0,
                                old(self).l()->Active_0,
                                old(self).buf(),
                                0,
                                self.s()->Active_0,
                                self.l()->Active_0,
                                self.buf(),
                                moved,
                            ));
                            assert(old(self).relay_calls(x, self, None));
                        }
                        Ok(())
                    },
                    Err(e) => {
                        let swapped = e.swap();
                        proof {
                            assert(old(self).relay_calls(x, self, Some(swapped)));
                        }
                        Err(swapped)
                    },
                }
            },
        }
    }

    /// Drives the pending side `x` one handshake step further. When that completes
    /// the handshake and the other side is active already, the other side is
    /// subscribed again and the pair is whole; when the other side is not active
    /// yet, side `x` is paused until it is.
    pub fn proceed(&mut self, poll: &Poll, x: Side) -> (r: Result<(), FwPairError<Le, Se>>)
        requires
            old(self)@.slot(x) == Slot::Pending,
            old(self)@.slot(x.flip()) == Slot::Pending || old(self)@.slot(x.flip()) == Slot::Active,
        ensures
            old(self).proceed_calls(poll, x, final(self), failure_of(r)),
            old(self)@.advanced(x, final(self)@, r is Ok),
            r matches Err(e) ==> (x == Side::L ==> e is L) && (x == Side::S ==> e is S),
    {
        match x {
            Side::L => {
                let r = advance_slot(
                    poll,
                    &mut self.ca,
                    &mut self.watched_a,
                    &self.cb,
                    &mut self.watched_b,
                    self.tok_b,
                );
                proof {
                    assert(advance_calls(
                        poll,
                        old(self).l(),
                        old(self)@.l_watched,
                        old(self).s(),
                        old(self)@.s_watched,
                        old(self)@.tok_s,
                        self.l(),
                        self@.l_watched,
                        self@.s_watched,
                        r,
                    ));
                }
                match r {
                    Ok(()) => Ok(()),
                    Err(e) => Err(FwPairError::ml(e)),
                }
            },
            Side::S => {
                let r = advance_slot(
                    poll,
                    &mut self.cb,
                    &mut self.watched_b,
                    &self.ca,
                    &mut self.watched_a,
                    self.tok_a,
                );
                proof {
                    assert(advance_calls(
                        poll,
                        old(self).s(),
                        old(self)@.s_watched,
                        old(self).l(),
                        old(self)@.l_watched,
                        old(self)@.tok_l,
                        self.s(),
                        self@.s_watched,
                        self@.l_watched,
                        r,
                    ));
                }
                match r {
                    Ok(()) => Ok(()),
                    Err(e) => Err(FwPairError::ms(e)),
                }
            },
        }
    }

    /// Handles one readiness event for side `x`.
    pub fn on_event(&mut self, poll: &Poll, x: Side) -> (r: Result<(), FwPairError<Le, Se>>)
        requires
            old(self)@.live(),
        ensures
            old(self).event_calls(poll, x, final(self), failure_of(r)),
            old(self)@.stepped(x, final(self)@, r is Ok),
            r matches Err(e) ==> !(e is Lost),
    {
        match self.info().plan_for(x) {
            Plan::Relay => self.relay(x),
            Plan::Advance => {
                match self.proceed(poll, x) {
                    Ok(()) => {},
                    Err(e) => {
                        return Err(e);
                    },
                }
                if self.actives() == 2 {
                    self.relay(x)
                } else {
                    Ok(())
                }
            },
            Plan::Nothing => Ok(()),
        }
    }

    /// The first look at a pair that was just made: one handshake step on each side
    /// that is pending, so that a handshake that needs no waiting is done at once.
    pub fn probe(&mut self, poll: &Poll) -> (r: Result<(), FwPairError<Le, Se>>)
        requires
            old(self)@.live(),
        ensures
            old(self).probe_calls(poll, final(self), failure_of(r)),
            exists|mid: PairInfo| #[trigger] old(self)@.probed(mid, final(self)@, r is Ok),
            r matches Err(e) ==> (e is L || e is S),
    {
        let ghost none: Option<FwPairError<Le, Se>> = None;
        if !self.ca.is_active() {
            match self.proceed(poll, Side::L) {
                Ok(()) => {},
                Err(e) => {
                    proof {
                        assert(old(self)@.probed(self@, self@, false));
                        assert(old(self).probe_side_calls(poll, Side::L, self, Some(e)));
                    }
                    return Err(e);
                },
            }
        }
        let ghost mid = *self;
        proof {
            assert(old(self).probe_side_calls(poll, Side::L, &mid, none));
        }
        if !self.cb.is_active() {
            match self.proceed(poll, Side::S) {
                Ok(()) => {},
                Err(e) => {
                    proof {
                        assert(old(self)@.probed(mid@, self@, false));
                        assert(mid.probe_side_calls(poll, Side::S, self, Some(e)));
                    }
                    return Err(e);
                },
            }
        }
        proof {
            assert(old(self)@.probed(mid@, self@, true));
            assert(mid.probe_side_calls(poll, Side::S, self, none));
        }
        Ok(())
    }

    /// Ends both subscriptions, as far as the slots still hold something, and
    /// answers with what the notifier said to each; a failure changes nothing in
    /// what is done.
    pub fn release(&mut self, poll: &Poll) -> (r: (Result<(), std::io::Error>, Result<(), std::io::Error>))
        requires
            old(self)@.at_rest(),
        ensures
            old(self).release_calls(poll, final(self), r),
            final(self)@ == old(self)@.released(),
            old(self)@.l == Slot::Lost ==> r.0 is Ok,
            old(self)@.s == Slot::Lost ==> r.1 is Ok,
    {
        let a = self.ca.deregister(poll);
        self.watched_a = false;
        let b = self.cb.deregister(poll);
        self.watched_b = false;
        (a, b)
    }

    /// Makes the pair `conn_id` of two fresh endpoints: subscribes both under the
    /// pair's tokens, and pauses the one that is active while the other is not.
    pub fn open(
        poll: &Poll,
        conn_id: usize,
        ca: State<Le, Lc, Lp>,
        cb: State<Se, Sc, Sp>,
        buffer: usize,
    ) -> (r: Result<Self, FwPairError<Le, Se>>)
        requires
            2 * conn_id + 1 <= usize::MAX,
            ca.slot() == Slot::Pending || ca.slot() == Slot::Active,
            cb.slot() == Slot::Pending || cb.slot() == Slot::Active,
        ensures
            Self::open_calls(poll, conn_id, ca, cb, buffer, r),
            r matches Ok(pair) ==> pair@ == PairInfo::fresh(conn_id, ca.slot(), cb.slot(), buffer),
            r matches Err(e) ==> (e is L || e is S),
    {
        let tok_a = conn_id * 2;
        let tok_b = tok_a + 1;
        let first = ca.register(poll, tok_a);
        match first {
            Ok(()) => {},
            Err(e) => {
                return Err(FwPairError::L(FwError::Register(e)));
            },
        }
        let second = cb.register(poll, tok_b);
        match second {
            Ok(()) => {},
            Err(e) => {
                return Err(FwPairError::S(FwError::Register(e)));
            },
        }
        let mut watched_a = true;
        let mut watched_b = true;
        if ca.is_active() && !cb.is_active() {
            let paused = ca.deregister(poll);
            match paused {
                Ok(()) => {},
                Err(e) => {
                    let r = Err(FwPairError::L(FwError::Register(e)));
                    proof {
                        assert(Self::pause_calls(poll, conn_id, ca, cb, buffer, r));
                    }
                    return r;
                },
            }
            watched_a = false;
        } else if cb.is_active() && !ca.is_active() {
            let paused = cb.deregister(poll);
            match paused {
                Ok(()) => {},
                Err(e) => {
                    let r = Err(FwPairError::S(FwError::Register(e)));
                    proof {
                        assert(Self::pause_calls(poll, conn_id, ca, cb, buffer, r));
                    }
                    return r;
                },
            }
            watched_b = false;
        }
        let r = Ok(
            Pair { conn_id, ca, cb, tx: 0, rx: 0, tok_a, tok_b, b: vec![0u8; buffer], watched_a, watched_b },
        );
        proof {
            let pair = r->Ok_0;
            assert(pair.buf() =~= Seq::new(buffer as nat, |i: int| 0u8));
            assert(Self::pause_calls(poll, conn_id, ca, cb, buffer, r));
        }
        r
    }
}

/// A handshake step on the pending slot `this`, beside the pair's other slot `that`,
/// with what follows it: one call of `try_channel`, which leaves the slot as
/// `this2`; then, if the handshake is complete, one call of `register` for `that`
/// under its token where `that` is active, and else one call of `deregister` for the
/// slot itself. The records of what is watched, `this_watched` and `that_watched`,
/// follow the calls that succeed; a slot that is lost is not watched.
pub open spec fn advance_calls<
    E: Debug,
    A: Chan<Err = E> + Pollable,
    B: MidChan<Err = E, C = A> + Pollable,
    E2: Debug,
    A2: Chan<Err = E2> + Pollable,
    B2: MidChan<Err = E2, C = A2> + Pollable,
>(
    poll: &Poll,
    this: State<E, A, B>,
    this_watched: bool,
    that: State<E2, A2, B2>,
    that_watched: bool,
    that_tok: usize,
    this2: State<E, A, B>,
    this_watched2: bool,
    that_watched2: bool,
    r: Result<(), FwError<E>>,
) -> bool {
    exists|step: Result<bool, FwError<E>>|
        {
            &&& #[trigger] this.step_call(poll, this2, step)
            &&& match step {
                Err(e) => {
                    &&& r == Err::<(), FwError<E>>(e)
                    &&& !this_watched2
                    &&& that_watched2 == that_watched
                },
                Ok(done) => match follow_up_of(done, that.slot() == Slot::Active) {
                    FollowUp::Nothing => {
                        &&& r is Ok
                        &&& this_watched2 == this_watched
                        &&& that_watched2 == that_watched
                    },
                    FollowUp::Resume => exists|resumed: Result<(), IoError>|
                        {
                            &&& #[trigger] that.register_call(poll, that_tok, resumed)
                            &&& this_watched2 == this_watched
                            &&& match resumed {
                                Ok(_) => r is Ok && that_watched2,
                                Err(e) => r == Err::<(), FwError<E>>(FwError::Register(e))
                                    && that_watched2 == that_watched,
                            }
                        },
                    FollowUp::Pause => exists|paused: Result<(), IoError>|
                        {
                            &&& #[trigger] this2.deregister_call(poll, paused)
                            &&& that_watched2 == that_watched
                            &&& match paused {
                                Ok(_) => r is Ok && !this_watched2,
                                Err(e) => r == Err::<(), FwError<E>>(FwError::Register(e))
                                    && this_watched2 == this_watched,
                            }
                        },
                },
            }
        }
}

/// The handshake step on one pending slot, `this`, beside the pair's other slot,
/// `that`, with the pause or the resumption that follows a completed handshake.
fn advance_slot<
    E: Debug,
    A: Chan<Err = E> + Pollable,
    B: MidChan<Err = E, C = A> + Pollable,
    E2: Debug,
    A2: Chan<Err = E2> + Pollable,
    B2: MidChan<Err = E2, C = A2> + Pollable,
>(
    poll: &Poll,
    this: &mut State<E, A, B>,
    this_watched: &mut bool,
    that: &State<E2, A2, B2>,
    that_watched: &mut bool,
    that_tok: usize,
) -> (r: Result<(), FwError<E>>)
    requires
        old(this).slot() == Slot::Pending,
        that.slot() == Slot::Pending || that.slot() == Slot::Active,
    ensures
        advance_calls(
            poll,
            *old(this),
            *old(this_watched),
            *that,
            *old(that_watched),
            that_tok,
            *final(this),
            *final(this_watched),
            *final(that_watched),
            r,
        ),
{
    match try_proceed(poll, this) {
        Ok(done) => {
            match follow_up(done, that.is_active()) {
                FollowUp::Nothing => Ok(()),
                FollowUp::Resume => {
                    match that.register(poll, that_tok) {
                        Ok(()) => {
                            *that_watched = true;
                            Ok(())
                        },
                        Err(e) => Err(FwError::Register(e)),
                    }
                },
                FollowUp::Pause => {
                    match this.deregister(poll) {
                        Ok(()) => {
                            *this_watched = false;
                            Ok(())
                        },
                        Err(e) => Err(FwError::Register(e)),
                    }
                },
            }
        },
        Err(e) => {
            *this_watched = false;
            Err(e)
        },
    }
}

} // verus!
