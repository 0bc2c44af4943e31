//! The rules of the engine, over plain values: what an event makes of the table of
//! pairs, and what holds of the table at all times.

use crate::chan::Slot;
use crate::model::{PairInfo, Side};
use crate::token::{conn_of, is_l, max_conn_id, LISTENER_TOKEN, NOTIFIER_TOKEN};
use vstd::prelude::*;

verus! {

/// The engine as the rules see it: its table of pairs, the identifier that the next
/// pair will get, and its two sizes.
pub struct FwInfo {
    pub pairs: Map<usize, PairInfo>,
    pub next_conn_id: usize,
    pub event_buffer_size: usize,
    pub client_buffer_size: usize,
}

impl FwInfo {
    /// An engine that has accepted nothing yet.
    pub open spec fn initial(event_buffer_size: usize, client_buffer_size: usize) -> FwInfo {
        FwInfo { pairs: Map::empty(), next_conn_id: 1, event_buffer_size, client_buffer_size }
    }

    /// What holds of the pair `id` in the table, be it live or only sound.
    pub open spec fn entry_ok(self, id: usize) -> bool {
        &&& self.pairs[id].conn_id == id
        &&& 1 <= id < self.next_conn_id
        &&& id <= max_conn_id()
        &&& self.pairs[id].buffer == self.client_buffer_size
        &&& self.pairs[id].sound()
    }

    /// What holds of the engine whenever no event is being handled: every pair in
    /// the table is live, sits under its own identifier, and has an identifier
    /// that was issued.
    pub open spec fn wf(self) -> bool {
        &&& self.next_conn_id >= 1
        &&& forall|id: usize| #[trigger]
            self.pairs.contains_key(id) ==> self.entry_ok(id) && self.pairs[id].live()
    }

    /// As `wf`, but that the pair `dead`, if there is one, may wait to be removed.
    pub open spec fn wf_but(self, dead: usize) -> bool {
        &&& self.next_conn_id >= 1
        &&& forall|id: usize| #[trigger]
            self.pairs.contains_key(id) ==> self.entry_ok(id) && (id != dead
                ==> self.pairs[id].live())
    }

    /// The side that a token speaks of.
    pub open spec fn side_of(tok: usize) -> Side {
        if is_l(tok as int) {
            Side::L
        } else {
            Side::S
        }
    }

    /// Only the table differs between the two engines.
    pub open spec fn same_but_pairs(self, post: FwInfo) -> bool {
        &&& post.next_conn_id == self.next_conn_id
        &&& post.event_buffer_size == self.event_buffer_size
        &&& post.client_buffer_size == self.client_buffer_size
    }

    /// The table without the pair `id`.
    pub open spec fn freed(self, id: usize) -> FwInfo {
        FwInfo { pairs: self.pairs.remove(id), ..self }
    }

    /// A readiness event under a token of a pair, with the removal of the pair
    /// where the event ended it. Nothing but that one pair is touched: it takes its
    /// step and stays (`ok`), or it leaves the table. A token whose pair is not in
    /// the table changes nothing.
    pub open spec fn pair_event(self, tok: usize, post: FwInfo, ok: bool) -> bool {
        let id = conn_of(tok as int) as usize;
        &&& self.same_but_pairs(post)
        &&& if !self.pairs.contains_key(id) {
            !ok && post.pairs == self.pairs
        } else if ok {
            &&& post.pairs.contains_key(id)
            &&& post.pairs == self.pairs.insert(id, post.pairs[id])
            &&& self.pairs[id].stepped(Self::side_of(tok), post.pairs[id], true)
        } else {
            post.pairs == self.pairs.remove(id)
        }
    }

    /// A readiness event under the listener's token. Either the table stays as it
    /// is, or one pair comes into it: a fresh one, under the next identifier. The
    /// next identifier is issued at most once, also where no pair comes of it.
    pub open spec fn listener_event(self, post: FwInfo, ok: bool) -> bool {
        let id = self.next_conn_id;
        &&& post.event_buffer_size == self.event_buffer_size
        &&& post.client_buffer_size == self.client_buffer_size
        &&& post.next_conn_id == id || (id <= max_conn_id() && post.next_conn_id == id + 1)
        &&& post.pairs == self.pairs || {
            &&& ok
            &&& post.next_conn_id == id + 1
            &&& post.pairs.contains_key(id)
            &&& post.pairs == self.pairs.insert(id, post.pairs[id])
            &&& post.pairs[id].l == Slot::Pending || post.pairs[id].l == Slot::Active
            &&& post.pairs[id].s == Slot::Pending || post.pairs[id].s == Slot::Active
            &&& post.pairs[id] == PairInfo::fresh(
                id,
                post.pairs[id].l,
                post.pairs[id].s,
                self.client_buffer_size,
            )
        }
    }

    /// Any one readiness event: the listener's under its token, a pair's under any
    /// other.
    pub open spec fn event(self, tok: usize, post: FwInfo, ok: bool) -> bool {
        if tok == LISTENER_TOKEN {
            self.listener_event(post, ok)
        } else {
            self.pair_event(tok, post, ok)
        }
    }

    /// The identifiers issued so far, in the order of their issue.
    pub open spec fn issued(self) -> Seq<usize> {
        Seq::new((self.next_conn_id - 1) as nat, |i: int| (i + 1) as usize)
    }

    /// What any run of events makes of an engine: the sizes stay, identifiers are
    /// only added, a pair that is still there has not lost a byte of its counts nor
    /// an active slot, and a pair that came in has a new identifier.
    pub open spec fn evolved(self, post: FwInfo) -> bool {
        &&& post.event_buffer_size == self.event_buffer_size
        &&& post.client_buffer_size == self.client_buffer_size
        &&& self.next_conn_id <= post.next_conn_id
        &&& forall|id: usize| #[trigger]
            post.pairs.contains_key(id) ==> if self.pairs.contains_key(id) {
                &&& post.pairs[id].bytes_l_to_s >= self.pairs[id].bytes_l_to_s
                &&& post.pairs[id].bytes_s_to_l >= self.pairs[id].bytes_s_to_l
                &&& self.pairs[id].l == Slot::Active ==> post.pairs[id].l == Slot::Active
                &&& self.pairs[id].s == Slot::Active ==> post.pairs[id].s == Slot::Active
            } else {
                self.next_conn_id <= id
            }
    }

    /// No pair of an engine in order shows a slot in the middle of a move, nor one
    /// that is lost.
    pub proof fn lemma_slots_at_rest(self, id: usize)
        requires
            self.wf(),
            self.pairs.contains_key(id),
        ensures
            self.pairs[id].at_rest(),
            !self.pairs[id].is_dead(),
    {
    }

    /// In an engine in order, side `x` of the pair `id` has the token
    /// `2 * id + x.bit()`, which is neither the listener's nor the notifier's own,
    /// and is watched under it; but for the active side of a pair whose other side
    /// is still pending, which is paused and not watched.
    pub proof fn lemma_watched_under_token(self, id: usize, x: Side)
        requires
            self.wf(),
            self.pairs.contains_key(id),
        ensures
            self.pairs[id].token(x) == 2 * id + x.bit(),
            self.pairs[id].token(x) != LISTENER_TOKEN,
            self.pairs[id].token(x) != NOTIFIER_TOKEN,
            conn_of(self.pairs[id].token(x) as int) == id,
            Self::side_of(self.pairs[id].token(x)) == x,
            self.pairs[id].slot(x) == Slot::Active && self.pairs[id].is_half()
                ==> !self.pairs[id].watched(x),
            !(self.pairs[id].slot(x) == Slot::Active && self.pairs[id].is_half())
                ==> self.pairs[id].watched(x),
    {
        assert(self.entry_ok(id));
    }

    /// The identifiers are issued in strictly increasing order, beginning at 1, and
    /// every pair in the table has one of them.
    pub proof fn lemma_issue_order(self)
        requires
            self.wf(),
        ensures
            self.issued().len() > 0 ==> self.issued()[0] == 1,
            forall|i: int, j: int|
                0 <= i < j < self.issued().len() ==> self.issued()[i] < self.issued()[j],
            forall|id: usize| #[trigger]
                self.pairs.contains_key(id) ==> self.issued().contains(id),
    {
        assert forall|id: usize| #[trigger] self.pairs.contains_key(id) implies self.issued().contains(
            id,
        ) by {
            assert(self.entry_ok(id));
            assert(self.issued()[id - 1] == id);
        }
    }

    /// An event keeps the engine in order.
    pub proof fn lemma_event_keeps_wf(self, tok: usize, post: FwInfo, ok: bool)
        requires
            self.wf(),
            self.event(tok, post, ok),
        ensures
            post.wf(),
    {
        let id = conn_of(tok as int) as usize;
        let next = self.next_conn_id;
        assert forall|k: usize| #[trigger] post.pairs.contains_key(k) implies post.entry_ok(k)
            && post.pairs[k].live() by {
            if tok == LISTENER_TOKEN {
                if post.pairs != self.pairs && k == next {
                    PairInfo::lemma_fresh_is_live(
                        next,
                        post.pairs[next].l,
                        post.pairs[next].s,
                        self.client_buffer_size,
                    );
                } else {
                    assert(self.pairs.contains_key(k));
                    assert(self.entry_ok(k));
                }
            } else {
                if self.pairs.contains_key(id) && ok && k == id {
                    assert(self.entry_ok(id));
                    self.pairs[id].lemma_step_keeps_order(Self::side_of(tok), post.pairs[id], true);
                } else {
                    assert(self.pairs.contains_key(k));
                    assert(self.entry_ok(k));
                }
            }
        }
    }

    /// An event issues at most the next identifier, and never takes one back.
    pub proof fn lemma_event_issues_in_order(self, tok: usize, post: FwInfo, ok: bool)
        requires
            self.wf(),
            self.event(tok, post, ok),
        ensures
            post.issued() == self.issued() || post.issued() == self.issued().push(
                self.next_conn_id,
            ),
            tok != LISTENER_TOKEN ==> post.issued() == self.issued(),
    {
        if post.next_conn_id == self.next_conn_id {
            assert(post.issued() =~= self.issued());
        } else {
            assert(post.issued() =~= self.issued().push(self.next_conn_id));
        }
    }

    /// An event under the listener's token leaves every pair of the table as it
    /// was; an event under any other token brings no pair in and issues no
    /// identifier, and touches no pair but its own.
    pub proof fn lemma_event_keeps_apart(self, tok: usize, post: FwInfo, ok: bool, id: usize)
        requires
            self.wf(),
            self.event(tok, post, ok),
            self.pairs.contains_key(id),
        ensures
            tok == LISTENER_TOKEN ==> post.pairs.contains_key(id) && post.pairs[id]
                == self.pairs[id],
            tok != LISTENER_TOKEN ==> post.next_conn_id == self.next_conn_id
                && post.pairs.dom().subset_of(self.pairs.dom()),
            tok != LISTENER_TOKEN && id != conn_of(tok as int) ==> post.pairs.contains_key(id)
                && post.pairs[id] == self.pairs[id],
    {
        assert(self.entry_ok(id));
    }

    /// An event never takes a byte off a counter: the counters of a pair that is
    /// still in the table afterwards are at least what they were.
    pub proof fn lemma_event_counts_up(self, tok: usize, post: FwInfo, ok: bool, id: usize)
        requires
            self.wf(),
            self.event(tok, post, ok),
            self.pairs.contains_key(id),
            post.pairs.contains_key(id),
        ensures
            post.pairs[id].bytes_l_to_s >= self.pairs[id].bytes_l_to_s,
            post.pairs[id].bytes_s_to_l >= self.pairs[id].bytes_s_to_l,
    {
        assert(self.entry_ok(id));
        if tok != LISTENER_TOKEN && id == conn_of(tok as int) && ok {
            self.pairs[id].lemma_step_counts_up(Self::side_of(tok), post.pairs[id], true);
        }
    }

    /// Bytes move only through a pair that is whole: a pair that an event leaves
    /// with a slot short of active has both counters at zero, before and after.
    pub proof fn lemma_event_relays_only_whole(
        self,
        tok: usize,
        post: FwInfo,
        ok: bool,
        id: usize,
    )
        requires
            self.wf(),
            self.event(tok, post, ok),
            self.pairs.contains_key(id),
            post.pairs.contains_key(id),
            !post.pairs[id].is_both(),
        ensures
            post.pairs[id].bytes_l_to_s == 0 && post.pairs[id].bytes_s_to_l == 0,
            self.pairs[id].bytes_l_to_s == 0 && self.pairs[id].bytes_s_to_l == 0,
    {
        self.lemma_event_keeps_wf(tok, post, ok);
        self.lemma_event_counts_up(tok, post, ok, id);
        assert(post.entry_ok(id));
    }

    /// No event at all is a run of events.
    pub proof fn lemma_evolved_same(self)
        ensures
            self.evolved(self),
    {
    }

    /// One event is a run of events.
    pub proof fn lemma_event_evolves(self, tok: usize, post: FwInfo, ok: bool)
        requires
            self.wf(),
            self.event(tok, post, ok),
        ensures
            self.evolved(post),
    {
        assert forall|id: usize| #[trigger] post.pairs.contains_key(id) implies if self.pairs.contains_key(
            id,
        ) {
            &&& post.pairs[id].bytes_l_to_s >= self.pairs[id].bytes_l_to_s
            &&& post.pairs[id].bytes_s_to_l >= self.pairs[id].bytes_s_to_l
            &&& self.pairs[id].l == Slot::Active ==> post.pairs[id].l == Slot::Active
            &&& self.pairs[id].s == Slot::Active ==> post.pairs[id].s == Slot::Active
        } else {
            self.next_conn_id <= id
        } by {
            if self.pairs.contains_key(id) {
                assert(self.entry_ok(id));
                self.lemma_event_counts_up(tok, post, ok, id);
            }
        }
    }

    /// Two runs of events, one after the other, are a run of events.
    pub proof fn lemma_evolved_chain(self, mid: FwInfo, post: FwInfo)
        requires
            self.wf(),
            mid.wf(),
            self.evolved(mid),
            mid.evolved(post),
        ensures
            self.evolved(post),
    {
        assert forall|id: usize| #[trigger] post.pairs.contains_key(id) implies if self.pairs.contains_key(
            id,
        ) {
            &&& post.pairs[id].bytes_l_to_s >= self.pairs[id].bytes_l_to_s
            &&& post.pairs[id].bytes_s_to_l >= self.pairs[id].bytes_s_to_l
            &&& self.pairs[id].l == Slot::Active ==> post.pairs[id].l == Slot::Active
            &&& self.pairs[id].s == Slot::Active ==> post.pairs[id].s == Slot::Active
        } else {
            self.next_conn_id <= id
        } by {
            if !mid.pairs.contains_key(id) && self.pairs.contains_key(id) {
                assert(self.entry_ok(id));
            }
        }
    }

    /// Removing a pair that is not there changes nothing, so removing one twice is
    /// removing it once.
    pub proof fn lemma_free_twice(self, id: usize)
        ensures
            self.freed(id).freed(id) == self.freed(id),
            !self.pairs.contains_key(id) ==> self.freed(id) == self,
    {
        assert(self.pairs.remove(id).remove(id) =~= self.pairs.remove(id));
        if !self.pairs.contains_key(id) {
            assert(self.pairs.remove(id) =~= self.pairs);
        }
    }
}

} // verus!
