//! The engine: the table of pairs, the accept path and the handling of events.

use crate::chan::{
    accept_call, accept_on, connect_call, connect_on, Chan, Connector, Listener, MidChan, NextState,
    Pollable, State,
};
use crate::conf::FwConf;
use crate::error::{failure_of, FwError, FwPairError};
use crate::model::{PairInfo, Side};
use crate::pair::Pair;
use crate::table::FwInfo;
use crate::token::{conn_of, conn_to_toks, max_conn_id, tok_l, tok_s, tok_to_conn, LISTENER_TOKEN};
use mio::Poll;
use std::collections::hash_map::Entry;
use std::collections::HashMap;
use std::fmt::Debug;
use std::io::Error as IoError;
use vstd::prelude::*;
use vstd::std_specs::convert::FromSpec;

verus! {

broadcast use vstd::std_specs::hash::group_hash_axioms;

/// The forwarder engine: it owns the notifier and the table of pairs, takes new
/// connections from its listener, dials a partner for each with its connector, and
/// drives every pair by the readiness events that it is handed.
#[verifier::reject_recursive_types(Le)]
#[verifier::reject_recursive_types(Lc)]
#[verifier::reject_recursive_types(Lp)]
#[verifier::reject_recursive_types(Se)]
#[verifier::reject_recursive_types(Sc)]
#[verifier::reject_recursive_types(Sp)]
#[verifier::reject_recursive_types(LL)]
#[verifier::reject_recursive_types(SS)]
pub struct Fw<
    Le: Debug,
    Lc: Chan<Err = Le> + Pollable,
    Lp: MidChan<C = Lc, Err = Le> + Pollable,
    Se: Debug,
    Sc: Chan<Err = Se> + Pollable,
    Sp: MidChan<C = Sc, Err = Se> + Pollable,
    LL: Listener<C = Lc, PC = Lp, Err = Le> + Pollable,
    SS: Connector<C = Sc, PC = Sp, Err = Se>,
> {
    listener: LL,
    connector: SS,
    conns: HashMap<usize, Pair<Le, Lc, Lp, Se, Sc, Sp>>,
    poll: Poll,
    next_conn_id: usize,
    event_buffer_size: usize,
    client_buffer_size: usize,
}

impl<
    Le: Debug,
    Lc: Chan<Err = Le> + Pollable,
    Lp: MidChan<C = Lc, Err = Le> + Pollable,
    Se: Debug,
    Sc: Chan<Err = Se> + Pollable,
    Sp: MidChan<C = Sc, Err = Se> + Pollable,
    LL: Listener<C = Lc, PC = Lp, Err = Le> + Pollable,
    SS: Connector<C = Sc, PC = Sp, Err = Se>,
> View for Fw<Le, Lc, Lp, Se, Sc, Sp, LL, SS> {
    type V = FwInfo;

    closed spec fn view(&self) -> FwInfo {
        FwInfo {
            pairs: self.conns@.map_values(|p: Pair<Le, Lc, Lp, Se, Sc, Sp>| p@),
            next_conn_id: self.next_conn_id,
            event_buffer_size: self.event_buffer_size,
            client_buffer_size: self.client_buffer_size,
        }
    }
}

impl<
    Le: Debug,
    Lc: Chan<Err = Le> + Pollable,
    Lp: MidChan<C = Lc, Err = Le> + Pollable,
    Se: Debug,
    Sc: Chan<Err = Se> + Pollable,
    Sp: MidChan<C = Sc, Err = Se> + Pollable,
    LL: Listener<C = Lc, PC = Lp, Err = Le> + Pollable,
    SS: Connector<C = Sc, PC = Sp, Err = Se>,
> Fw<Le, Lc, Lp, Se, Sc, Sp, LL, SS> {
    /// The pairs of the table themselves, with what they hold.
    pub closed spec fn pairs(&self) -> Map<usize, Pair<Le, Lc, Lp, Se, Sc, Sp>> {
        self.conns@
    }

    /// The listener, as a value.
    pub closed spec fn listener_value(&self) -> LL {
        self.listener
    }

    /// The connector, as a value.
    pub closed spec fn connector_value(&self) -> SS {
        self.connector
    }

    /// The notifier.
    pub closed spec fn notifier(&self) -> &Poll {
        &self.poll
    }

    /// The engine's invariant.
    pub open spec fn wf(&self) -> bool {
        self@.wf()
    }

    /// The making of an engine: one call for a new notifier, and, if the system gave
    /// one, an engine around it that has accepted nothing yet. An error of that
    /// call is handed on as it is.
    pub open spec fn new_calls(
        listener: LL,
        connector: SS,
        event_buffer_size: usize,
        client_buffer_size: usize,
        r: Result<Self, IoError>,
    ) -> bool {
        exists|made: Result<Poll, IoError>|
            {
                &&& #[trigger] poll_call(made)
                &&& match made {
                    Ok(poll) => {
                        &&& r matches Ok(fw)
                        &&& fw.notifier() == poll
                        &&& fw.listener_value() == listener
                        &&& fw.connector_value() == connector
                        &&& fw.pairs() == Map::<usize, Pair<Le, Lc, Lp, Se, Sc, Sp>>::empty()
                        &&& fw@ == FwInfo::initial(event_buffer_size, client_buffer_size)
                    },
                    Err(e) => r matches Err(x) && x == e,
                }
            }
    }

    /// The events under the tokens `toks`, handled one after the other, which leave
    /// the engine as `post`; `failed` lists the tokens of those that ended in an
    /// error, each with its error, in the order of the events.
    pub open spec fn turn_calls(
        &self,
        toks: Seq<usize>,
        post: &Self,
        failed: Seq<(usize, FwPairError<Le, Se>)>,
    ) -> bool
        decreases toks.len(),
    {
        if toks.len() == 0 {
            post == self && failed.len() == 0
        } else {
            exists|mid: Self, failure: Option<FwPairError<Le, Se>>|
                {
                    &&& #[trigger] self.event_calls(toks[0], &mid, failure)
                    &&& match failure {
                        None => mid.turn_calls(toks.skip(1), post, failed),
                        Some(e) => {
                            &&& failed.len() > 0
                            &&& failed[0] == (toks[0], e)
                            &&& mid.turn_calls(toks.skip(1), post, failed.skip(1))
                        },
                    }
                }
        }
    }

    /// Nothing but the listener, the connector, the table and the next identifier
    /// differs between the two engines.
    pub open spec fn same_frame(&self, post: &Self) -> bool {
        &&& post.notifier() == self.notifier()
        &&& post@.event_buffer_size == self@.event_buffer_size
        &&& post@.client_buffer_size == self@.client_buffer_size
    }

    /// The making of a pair out of an inbound endpoint `chan_l` and an outbound
    /// endpoint `chan_s`, which leaves the engine as `post`. With no identifier left
    /// nothing is done, and the pair is lost. Else the next identifier is issued,
    /// the pair is made under it and looked at for the first time; it comes into
    /// the table if that went well, and else its subscriptions are ended and it is
    /// dropped.
    pub open spec fn pair_up_calls(
        &self,
        chan_l: NextState<Le, Lc, Lp>,
        chan_s: NextState<Se, Sc, Sp>,
        post: &Self,
        failure: Option<FwPairError<Le, Se>>,
    ) -> bool {
        let id = self@.next_conn_id;
        let ca = State::<Le, Lc, Lp>::from_spec(chan_l);
        let cb = State::<Se, Sc, Sp>::from_spec(chan_s);
        &&& self.same_frame(post)
        &&& post.listener_value() == self.listener_value()
        &&& post.connector_value() == self.connector_value()
        &&& if id > max_conn_id() {
            &&& failure == Some(FwPairError::<Le, Se>::Lost)
            &&& post.pairs() == self.pairs()
            &&& post@.next_conn_id == id
        } else {
            &&& post@.next_conn_id == id + 1
            &&& exists|opened: Result<Pair<Le, Lc, Lp, Se, Sc, Sp>, FwPairError<Le, Se>>|
                {
                    &&& #[trigger] Pair::open_calls(
                        self.notifier(),
                        id,
                        ca,
                        cb,
                        self@.client_buffer_size,
                        opened,
                    )
                    &&& match opened {
                        Err(e) => failure == Some(e) && post.pairs() == self.pairs(),
                        Ok(pair) => exists|
                            probed: Pair<Le, Lc, Lp, Se, Sc, Sp>,
                            stopped: Option<FwPairError<Le, Se>>,
                        |
                            {
                                &&& #[trigger] pair.probe_calls(self.notifier(), &probed, stopped)
                                &&& failure == stopped
                                &&& if stopped is None {
                                    post.pairs() == self.pairs().insert(id, probed)
                                } else {
                                    &&& post.pairs() == self.pairs()
                                    &&& exists|
                                        gone: Pair<Le, Lc, Lp, Se, Sc, Sp>,
                                        answers: (Result<(), IoError>, Result<(), IoError>),
                                    | #[trigger]
                                        probed.release_calls(self.notifier(), &gone, answers)
                                }
                            },
                    }
                }
        }
    }

    /// A readiness event under the listener's token, which leaves the engine as
    /// `post`: one call of `accept`; if that gave an inbound endpoint, one call of
    /// `connect`; and if that gave an outbound endpoint, the making of their pair.
    pub open spec fn accept_calls(&self, post: &Self, failure: Option<FwPairError<Le, Se>>) -> bool {
        exists|got: Result<Option<NextState<Le, Lc, Lp>>, FwError<Le>>, mid: Self|
            {
                &&& #[trigger] accept_call(self.listener_value(), got, mid.listener_value())
                &&& self.same_frame(&mid)
                &&& mid.connector_value() == self.connector_value()
                &&& mid.pairs() == self.pairs()
                &&& mid@.next_conn_id == self@.next_conn_id
                &&& match got {
                    Err(e) => failure == Some(FwPairError::<Le, Se>::L(e)) && post == mid,
                    Ok(None) => failure is None && post == mid,
                    Ok(Some(chan_l)) => mid.dial_calls(chan_l, post, failure),
                }
            }
    }

    /// The second half of an accept, once the inbound endpoint `chan_l` is at hand:
    /// one call of `connect`, and the making of the pair if that gave an endpoint.
    pub open spec fn dial_calls(
        &self,
        chan_l: NextState<Le, Lc, Lp>,
        post: &Self,
        failure: Option<FwPairError<Le, Se>>,
    ) -> bool {
        exists|dialed: Result<NextState<Se, Sc, Sp>, FwError<Se>>, mid: Self|
            {
                &&& #[trigger] connect_call(self.connector_value(), dialed, mid.connector_value())
                &&& self.same_frame(&mid)
                &&& mid.listener_value() == self.listener_value()
                &&& mid.pairs() == self.pairs()
                &&& mid@.next_conn_id == self@.next_conn_id
                &&& match dialed {
                    Err(e) => failure == Some(FwPairError::<Le, Se>::S(e)) && post == mid,
                    Ok(chan_s) => mid.pair_up_calls(chan_l, chan_s, post, failure),
                }
            }
    }

    /// A readiness event under a token of a pair, which leaves the engine as
    /// `post`. A token whose pair is not in the table changes nothing, and the pair
    /// is lost. Else the pair takes its step, stays in the table if it can go on,
    /// and else has its subscriptions ended and is dropped.
    pub open spec fn pair_event_calls(
        &self,
        tok: usize,
        post: &Self,
        failure: Option<FwPairError<Le, Se>>,
    ) -> bool {
        let id = conn_of(tok as int) as usize;
        &&& self.same_frame(post)
        &&& post.listener_value() == self.listener_value()
        &&& post.connector_value() == self.connector_value()
        &&& post@.next_conn_id == self@.next_conn_id
        &&& if !self.pairs().contains_key(id) {
            failure == Some(FwPairError::<Le, Se>::Lost) && post.pairs() == self.pairs()
        } else {
            exists|stepped: Pair<Le, Lc, Lp, Se, Sc, Sp>|
                {
                    &&& #[trigger] self.pairs()[id].event_calls(
                        self.notifier(),
                        FwInfo::side_of(tok),
                        &stepped,
                        failure,
                    )
                    &&& if failure is None {
                        post.pairs() == self.pairs().insert(id, stepped)
                    } else {
                        &&& post.pairs() == self.pairs().remove(id)
                        &&& exists|
                            gone: Pair<Le, Lc, Lp, Se, Sc, Sp>,
                            answers: (Result<(), IoError>, Result<(), IoError>),
                        | #[trigger]
                            stepped.release_calls(self.notifier(), &gone, answers)
                    }
                }
        }
    }

    /// Any one readiness event, which leaves the engine as `post`: the listener's
    /// under its token, a pair's under any other.
    pub open spec fn event_calls(
        &self,
        tok: usize,
        post: &Self,
        failure: Option<FwPairError<Le, Se>>,
    ) -> bool {
        if tok == LISTENER_TOKEN {
            self.accept_calls(post, failure)
        } else {
            self.pair_event_calls(tok, post, failure)
        }
    }

    /// An event as the calls tell it is an event as the rules see it. So what holds
    /// of every event by the rules holds of every event that the engine handles.
    pub proof fn lemma_event_follows_rules(
        &self,
        tok: usize,
        post: &Self,
        failure: Option<FwPairError<Le, Se>>,
    )
        requires
            self.wf(),
            self.event_calls(tok, post, failure),
        ensures
            self@.event(tok, post@, failure is None),
    {
        self.lemma_view_of_pairs();
        post.lemma_view_of_pairs();
        let id = conn_of(tok as int) as usize;
        if tok == LISTENER_TOKEN {
            self.lemma_accept_follows_rules(post, failure);
        } else if self.pairs().contains_key(id) {
            let stepped = choose|stepped: Pair<Le, Lc, Lp, Se, Sc, Sp>|
                {
                    &&& #[trigger] self.pairs()[id].event_calls(
                        self.notifier(),
                        FwInfo::side_of(tok),
                        &stepped,
                        failure,
                    )
                    &&& if failure is None {
                        post.pairs() == self.pairs().insert(id, stepped)
                    } else {
                        &&& post.pairs() == self.pairs().remove(id)
                        &&& exists|
                            gone: Pair<Le, Lc, Lp, Se, Sc, Sp>,
                            answers: (Result<(), IoError>, Result<(), IoError>),
                        | #[trigger]
                            stepped.release_calls(self.notifier(), &gone, answers)
                    }
                };
            assert(self@.pairs.contains_key(id));
            assert(self@.entry_ok(id));
            self.pairs()[id].lemma_event_follows_rules(
                self.notifier(),
                FwInfo::side_of(tok),
                &stepped,
                failure,
            );
            if failure is None {
                assert(post@.pairs =~= self@.pairs.insert(id, stepped@));
            } else {
                assert(post@.pairs =~= self@.pairs.remove(id));
            }
        } else {
            assert(post@.pairs =~= self@.pairs);
        }
    }

    /// An accept as the calls tell it is one as the rules see it.
    pub proof fn lemma_accept_follows_rules(&self, post: &Self, failure: Option<FwPairError<Le, Se>>)
        requires
            self.wf(),
            self.accept_calls(post, failure),
        ensures
            self@.listener_event(post@, failure is None),
    {
        self.lemma_view_of_pairs();
        post.lemma_view_of_pairs();
        let (got, heard) = choose|got: Result<Option<NextState<Le, Lc, Lp>>, FwError<Le>>, mid: Self|
            {
                &&& #[trigger] accept_call(self.listener_value(), got, mid.listener_value())
                &&& self.same_frame(&mid)
                &&& mid.connector_value() == self.connector_value()
                &&& mid.pairs() == self.pairs()
                &&& mid@.next_conn_id == self@.next_conn_id
                &&& match got {
                    Err(e) => failure == Some(FwPairError::<Le, Se>::L(e)) && post == mid,
                    Ok(None) => failure is None && post == mid,
                    Ok(Some(chan_l)) => mid.dial_calls(chan_l, post, failure),
                }
            };
        heard.lemma_view_of_pairs();
        assert(heard@.pairs =~= self@.pairs);
        match got {
            Ok(Some(chan_l)) => {
                heard.lemma_dial_follows_rules(chan_l, post, failure);
            },
            _ => {},
        }
    }

    /// The second half of an accept as the calls tell it is one as the rules see it.
    pub proof fn lemma_dial_follows_rules(
        &self,
        chan_l: NextState<Le, Lc, Lp>,
        post: &Self,
        failure: Option<FwPairError<Le, Se>>,
    )
        requires
            self.wf(),
            self.dial_calls(chan_l, post, failure),
        ensures
            self@.listener_event(post@, failure is None),
    {
        self.lemma_view_of_pairs();
        post.lemma_view_of_pairs();
        let (dialed, rung) = choose|dialed: Result<NextState<Se, Sc, Sp>, FwError<Se>>, mid: Self|
            {
                &&& #[trigger] connect_call(self.connector_value(), dialed, mid.connector_value())
                &&& self.same_frame(&mid)
                &&& mid.listener_value() == self.listener_value()
                &&& mid.pairs() == self.pairs()
                &&& mid@.next_conn_id == self@.next_conn_id
                &&& match dialed {
                    Err(e) => failure == Some(FwPairError::<Le, Se>::S(e)) && post == mid,
                    Ok(chan_s) => mid.pair_up_calls(chan_l, chan_s, post, failure),
                }
            };
        rung.lemma_view_of_pairs();
        assert(rung@.pairs =~= self@.pairs);
        match dialed {
            Ok(chan_s) => {
                rung.lemma_pair_up_follows_rules(chan_l, chan_s, post, failure);
            },
            Err(_) => {},
        }
    }

    /// The making of a pair as the calls tell it is one as the rules see it.
    pub proof fn lemma_pair_up_follows_rules(
        &self,
        chan_l: NextState<Le, Lc, Lp>,
        chan_s: NextState<Se, Sc, Sp>,
        post: &Self,
        failure: Option<FwPairError<Le, Se>>,
    )
        requires
            self.wf(),
            self.pair_up_calls(chan_l, chan_s, post, failure),
        ensures
            self@.listener_event(post@, failure is None),
    {
        self.lemma_view_of_pairs();
        post.lemma_view_of_pairs();
        let id = self@.next_conn_id;
        let ca = State::<Le, Lc, Lp>::from_spec(chan_l);
        let cb = State::<Se, Sc, Sp>::from_spec(chan_s);
        if id > max_conn_id() {
            assert(post@.pairs =~= self@.pairs);
        } else {
            let opened = choose|opened: Result<Pair<Le, Lc, Lp, Se, Sc, Sp>, FwPairError<Le, Se>>|
                {
                    &&& #[trigger] Pair::open_calls(
                        self.notifier(),
                        id,
                        ca,
                        cb,
                        self@.client_buffer_size,
                        opened,
                    )
                    &&& match opened {
                        Err(e) => failure == Some(e) && post.pairs() == self.pairs(),
                        Ok(pair) => exists|
                            probed: Pair<Le, Lc, Lp, Se, Sc, Sp>,
                            stopped: Option<FwPairError<Le, Se>>,
                        |
                            {
                                &&& #[trigger] pair.probe_calls(self.notifier(), &probed, stopped)
                                &&& failure == stopped
                                &&& if stopped is None {
                                    post.pairs() == self.pairs().insert(id, probed)
                                } else {
                                    &&& post.pairs() == self.pairs()
                                    &&& exists|
                                        gone: Pair<Le, Lc, Lp, Se, Sc, Sp>,
                                        answers: (Result<(), IoError>, Result<(), IoError>),
                                    | #[trigger]
                                        probed.release_calls(self.notifier(), &gone, answers)
                                }
                            },
                    }
                };
            match opened {
                Err(e) => {
                    assert(post@.pairs =~= self@.pairs);
                },
                Ok(pair) => {
                    Pair::lemma_open_follows_rules(
                        self.notifier(),
                        id,
                        ca,
                        cb,
                        self@.client_buffer_size,
                        opened,
                    );
                    PairInfo::lemma_fresh_is_live(id, ca.slot(), cb.slot(), self@.client_buffer_size);
                    let (probed, stopped) = choose|
                        probed: Pair<Le, Lc, Lp, Se, Sc, Sp>,
                        stopped: Option<FwPairError<Le, Se>>,
                    |
                        {
                            &&& #[trigger] pair.probe_calls(self.notifier(), &probed, stopped)
                            &&& failure == stopped
                            &&& if stopped is None {
                                post.pairs() == self.pairs().insert(id, probed)
                            } else {
                                &&& post.pairs() == self.pairs()
                                &&& exists|
                                    gone: Pair<Le, Lc, Lp, Se, Sc, Sp>,
                                    answers: (Result<(), IoError>, Result<(), IoError>),
                                | #[trigger]
                                    probed.release_calls(self.notifier(), &gone, answers)
                            }
                        };
                    pair.lemma_probe_follows_rules(self.notifier(), &probed, stopped);
                    let mid = choose|mid: PairInfo| #[trigger]
                        pair@.probed(mid, probed@, stopped is None);
                    pair@.lemma_probe_keeps_fresh(mid, probed@, stopped is None);
                    if stopped is None {
                        assert(post@.pairs =~= self@.pairs.insert(id, probed@));
                    } else {
                        assert(post@.pairs =~= self@.pairs);
                    }
                },
            }
        }
    }

    /// The view lists the pairs of the table, each as the rules see it.
    pub proof fn lemma_view_of_pairs(&self)
        ensures
            self@.pairs.dom() == self.pairs().dom(),
            forall|id: usize| #[trigger]
                self.pairs().contains_key(id) ==> self@.pairs[id] == self.pairs()[id]@,
    {
    }

    /// An engine with a notifier of its own, or the error that kept the system from
    /// giving one.
    pub fn new(
        listener: LL,
        connector: SS,
        capacity: usize,
        event_buffer_size: usize,
        client_buffer_size: usize,
    ) -> (r: Result<Self, IoError>)
        ensures
            Self::new_calls(listener, connector, event_buffer_size, client_buffer_size, r),
            r matches Ok(fw) ==> fw.wf(),
    {
        let made = new_poll();
        proof {
            assert(poll_call(made));
        }
        match made {
            Ok(poll) => Ok(
                Self::with_poll(
                    listener,
                    connector,
                    poll,
                    capacity,
                    event_buffer_size,
                    client_buffer_size,
                ),
            ),
            Err(e) => Err(e),
        }
    }

    /// An engine of the sizes that `conf` holds.
    pub fn from_conf(conf: &FwConf, listener: LL, connector: SS) -> (r: Result<Self, IoError>)
        ensures
            Self::new_calls(
                listener,
                connector,
                conf.spec_event_buffer_size(),
                conf.spec_client_buffer_size(),
                r,
            ),
            r matches Ok(fw) ==> fw.wf(),
    {
        Self::new(
            listener,
            connector,
            conf.capacity(),
            conf.event_buffer_size(),
            conf.client_buffer_size(),
        )
    }

    /// An engine around a notifier that is at hand.
    pub fn with_poll(
        listener: LL,
        connector: SS,
        poll: Poll,
        capacity: usize,
        event_buffer_size: usize,
        client_buffer_size: usize,
    ) -> (r: Self)
        ensures
            r@ == FwInfo::initial(event_buffer_size, client_buffer_size),
            r.wf(),
            r.pairs() == Map::<usize, Pair<Le, Lc, Lp, Se, Sc, Sp>>::empty(),
            r.listener_value() == listener,
            r.connector_value() == connector,
            r.notifier() == poll,
    {
        let r = Fw {
            listener,
            connector,
            conns: HashMap::<usize, Pair<Le, Lc, Lp, Se, Sc, Sp>>::with_capacity(capacity),
            poll,
            next_conn_id: 1,
            event_buffer_size,
            client_buffer_size,
        };
        assert(r@.pairs =~= Map::<usize, PairInfo>::empty());
        r
    }

    /// The notifier, for the caller to wait on.
    pub fn poll(&self) -> (r: &Poll)
        ensures
            r == self.notifier(),
    {
        &self.poll
    }

    /// How many events one poll may hand over.
    pub fn event_buffer_size(&self) -> (r: usize)
        ensures
            r == self@.event_buffer_size,
    {
        self.event_buffer_size
    }

    /// The size of each pair's relay buffer, in bytes.
    pub fn client_buffer_size(&self) -> (r: usize)
        ensures
            r == self@.client_buffer_size,
    {
        self.client_buffer_size
    }

    /// The identifier that the next pair will get.
    pub fn next_conn_id(&self) -> (r: usize)
        ensures
            r == self@.next_conn_id,
    {
        self.next_conn_id
    }

    /// How many pairs the table holds.
    pub fn len(&self) -> (r: usize)
        ensures
            r == self@.pairs.len(),
    {
        proof {
            assert(self@.pairs.dom() =~= self.conns@.dom());
        }
        self.conns.len()
    }

    /// The pair `conn_id` as the rules see it, if it is in the table.
    pub fn pair(&self, conn_id: usize) -> (r: Option<PairInfo>)
        ensures
            r == self@.pairs.get(conn_id),
    {
        match self.conns.get(&conn_id) {
            Some(pair) => Some(pair.info()),
            None => None,
        }
    }

    /// Subscribes the listener under its token, which no pair has. From then on
    /// the notifier tells of connections that wait to be accepted.
    pub fn listen(&self) -> (r: Result<(), IoError>)
        ensures
            call_ensures(
                LL::register,
                (&self.listener_value(), self.notifier(), LISTENER_TOKEN),
                r,
            ),
    {
        self.listener.register(&self.poll, LISTENER_TOKEN)
    }

    /// The pair `idx` of a table, to work on.
    fn get(conns: &mut HashMap<usize, Pair<Le, Lc, Lp, Se, Sc, Sp>>, idx: usize) -> (r: Result<
        &mut Pair<Le, Lc, Lp, Se, Sc, Sp>,
        FwPairError<Le, Se>,
    >)
        ensures
            match r {
                Ok(pair) => {
                    &&& old(conns)@.contains_key(idx)
                    &&& *pair == old(conns)@[idx]
                    &&& final(conns)@ == old(conns)@.insert(idx, *final(pair))
                },
                Err(e) => {
                    &&& e is Lost
                    &&& !old(conns)@.contains_key(idx)
                    &&& final(conns)@ == old(conns)@
                },
            },
    {
        match conns.entry(idx) {
            Entry::Occupied(e) => Ok(e.into_mut()),
            Entry::Vacant(_) => Err(FwPairError::Lost),
        }
    }

    /// Issues the next identifier, with its two tokens; `None`, and nothing issued,
    /// when no identifier is left whose tokens can be had.
    fn create_conn_idents(&mut self) -> (r: Option<(usize, usize, usize)>)
        ensures
            final(self).pairs() == old(self).pairs(),
            final(self).listener_value() == old(self).listener_value(),
            final(self).connector_value() == old(self).connector_value(),
            final(self).notifier() == old(self).notifier(),
            final(self)@.pairs == old(self)@.pairs,
            final(self)@.event_buffer_size == old(self)@.event_buffer_size,
            final(self)@.client_buffer_size == old(self)@.client_buffer_size,
            match r {
                Some((idx, tok_a, tok_b)) => {
                    &&& idx == old(self)@.next_conn_id
                    &&& idx <= max_conn_id()
                    &&& tok_a == tok_l(idx as int)
                    &&& tok_b == tok_s(idx as int)
                    &&& final(self)@.next_conn_id == idx + 1
                },
                None => {
                    &&& old(self)@.next_conn_id > max_conn_id()
                    &&& final(self)@.next_conn_id == old(self)@.next_conn_id
                },
            },
    {
        let idx = self.next_conn_id;
        match conn_to_toks(idx) {
            Some((tok_a, tok_b)) => {
                self.next_conn_id = idx + 1;
                Some((idx, tok_a, tok_b))
            },
            None => None,
        }
    }

    /// Makes the pair of two endpoints that are at hand, and puts it into the table
    /// after a first look at each side.
    fn pair_up(&mut self, chan_l: NextState<Le, Lc, Lp>, chan_s: NextState<Se, Sc, Sp>) -> (r: Result<
        (),
        FwPairError<Le, Se>,
    >)
        requires
            old(self).wf(),
        ensures
            final(self).wf(),
            old(self).pair_up_calls(chan_l, chan_s, final(self), failure_of(r)),
            old(self)@.listener_event(final(self)@, r is Ok),
            forall|id: usize| #[trigger]
                old(self).pairs().contains_key(id) ==> final(self).pairs().contains_key(id)
                    && final(self).pairs()[id] == old(self).pairs()[id],
            r matches Err(e) ==> final(self).pairs() == old(self).pairs() && !(e is Disconnected),
            r matches Err(e) && e is Lost ==> old(self)@.next_conn_id > max_conn_id(),
    {
        let conn_id = match self.create_conn_idents() {
            Some((conn_id, _, _)) => conn_id,
            None => {
                return Err(FwPairError::Lost);
            },
        };
        let ca: State<Le, Lc, Lp> = State::from(chan_l);
        let cb: State<Se, Sc, Sp> = State::from(chan_s);
        let opened = Pair::open(&self.poll, conn_id, ca, cb, self.client_buffer_size);
        let mut pair = match opened {
            Ok(pair) => pair,
            Err(e) => {
                return Err(e);
            },
        };
        let ghost made = pair;
        proof {
            PairInfo::lemma_fresh_is_live(conn_id, ca.slot(), cb.slot(), self.client_buffer_size);
        }
        let probed = pair.probe(&self.poll);
        let ghost seen = pair;
        proof {
            let mid = choose|mid: PairInfo| #[trigger] made@.probed(mid, pair@, probed is Ok);
            made@.lemma_probe_keeps_fresh(mid, pair@, probed is Ok);
            assert(made.probe_calls(self.notifier(), &seen, failure_of(probed)));
        }
        match probed {
            Ok(()) => {
                let ghost before = self.conns@;
                self.conns.insert(conn_id, pair);
                proof {
                    assert(!old(self)@.pairs.contains_key(conn_id));
                    assert(!before.contains_key(conn_id));
                    assert(final(self)@.pairs =~= old(self)@.pairs.insert(conn_id, pair@));
                }
                Ok(())
            },
            Err(e) => {
                let answers = pair.release(&self.poll);
                proof {
                    assert(seen.release_calls(self.notifier(), &pair, answers));
                }
                Err(e)
            },
        }
    }

    /// Takes one connection from the listener, if one is waiting, dials its
    /// partner, and puts the two into the table as a fresh pair after a first look
    /// at each side. Whatever fails on the way, the table stays as it was.
    fn accept(&mut self) -> (r: Result<(), FwPairError<Le, Se>>)
        requires
            old(self).wf(),
        ensures
            final(self).wf(),
            old(self).accept_calls(final(self), failure_of(r)),
            old(self)@.listener_event(final(self)@, r is Ok),
            forall|id: usize| #[trigger]
                old(self).pairs().contains_key(id) ==> final(self).pairs().contains_key(id)
                    && final(self).pairs()[id] == old(self).pairs()[id],
            r matches Err(e) ==> final(self).pairs() == old(self).pairs() && !(e is Disconnected),
            r matches Err(e) && e is Lost ==> old(self)@.next_conn_id > max_conn_id(),
    {
        let (got, _) = accept_on(&mut self.listener);
        let ghost heard = *self;
        proof {
            assert(accept_call(old(self).listener_value(), got, heard.listener_value()));
        }
        let chan_l = match got {
            Ok(Some(chan_l)) => chan_l,
            Ok(None) => {
                return Ok(());
            },
            Err(e) => {
                return Err(FwPairError::ml(e));
            },
        };
        let (dialed, _) = connect_on(&mut self.connector);
        let ghost rung = *self;
        proof {
            assert(connect_call(heard.connector_value(), dialed, rung.connector_value()));
        }
        let chan_s = match dialed {
            Ok(chan_s) => chan_s,
            Err(e) => {
                proof {
                    assert(heard.dial_calls(chan_l, self, Some(FwPairError::<Le, Se>::S(e))));
                }
                return Err(FwPairError::ms(e));
            },
        };
        let r = self.pair_up(chan_l, chan_s);
        proof {
            assert(heard.dial_calls(chan_l, self, failure_of(r)));
        }
        r
    }

    /// Handles a readiness event under a token of a pair: the pair takes its step.
    /// A pair that the step ended stays in the table, to be removed by `free`.
    fn polled(&mut self, idx: usize) -> (r: Result<(), FwPairError<Le, Se>>)
        requires
            old(self).wf(),
        ensures
            final(self)@.wf_but(conn_of(idx as int) as usize),
            r is Ok ==> final(self).wf(),
            old(self)@.same_but_pairs(final(self)@),
            final(self).listener_value() == old(self).listener_value(),
            final(self).connector_value() == old(self).connector_value(),
            final(self).pairs().dom() == old(self).pairs().dom(),
            forall|id: usize|
                id != conn_of(idx as int) && #[trigger] old(self).pairs().contains_key(id)
                    ==> final(self).pairs()[id] == old(self).pairs()[id],
            final(self).notifier() == old(self).notifier(),
            old(self)@.pairs.contains_key(conn_of(idx as int) as usize) ==> {
                &&& !(r matches Err(e) && e is Lost)
                &&& old(self)@.pairs[conn_of(idx as int) as usize].stepped(
                    FwInfo::side_of(idx),
                    final(self)@.pairs[conn_of(idx as int) as usize],
                    r is Ok,
                )
                &&& old(self).pairs()[conn_of(idx as int) as usize].event_calls(
                    old(self).notifier(),
                    FwInfo::side_of(idx),
                    &final(self).pairs()[conn_of(idx as int) as usize],
                    failure_of(r),
                )
                &&& final(self).pairs() == old(self).pairs().insert(
                    conn_of(idx as int) as usize,
                    final(self).pairs()[conn_of(idx as int) as usize],
                )
            },
            !old(self)@.pairs.contains_key(conn_of(idx as int) as usize) ==> {
                &&& r matches Err(e) && e is Lost
                &&& final(self).pairs() == old(self).pairs()
            },
    {
        let (conn_idx, is_a) = tok_to_conn(idx);
        let side = if is_a {
            Side::L
        } else {
            Side::S
        };
        let r = match Self::get(&mut self.conns, conn_idx) {
            Ok(pair) => {
                proof {
                    assert(old(self)@.pairs.contains_key(conn_idx));
                    assert(old(self)@.entry_ok(conn_idx));
                }
                let ghost pre = pair@;
                let r = pair.on_event(&self.poll, side);
                proof {
                    pre.lemma_step_keeps_order(side, pair@, r is Ok);
                }
                r
            },
            Err(e) => Err(e),
        };
        proof {
            assert(final(self)@.pairs.dom() =~= old(self)@.pairs.dom());
            assert(final(self).pairs().dom() =~= old(self).pairs().dom());
        }
        r
    }

    /// Removes the pair `conn_idx` from the table, after ending both of its
    /// subscriptions, and answers with what the notifier said to each of the two;
    /// `None`, and nothing done, when no such pair is in the table.
    pub fn free(&mut self, conn_idx: usize) -> (r: Option<(Result<(), IoError>, Result<(), IoError>)>)
        requires
            old(self)@.wf_but(conn_idx),
        ensures
            final(self).wf(),
            final(self)@ == old(self)@.freed(conn_idx),
            final(self).pairs() == old(self).pairs().remove(conn_idx),
            final(self).listener_value() == old(self).listener_value(),
            final(self).connector_value() == old(self).connector_value(),
            final(self).notifier() == old(self).notifier(),
            r is Some == old(self)@.pairs.contains_key(conn_idx),
            r matches Some(answers) ==> exists|gone: Pair<Le, Lc, Lp, Se, Sc, Sp>| #[trigger]
                old(self).pairs()[conn_idx].release_calls(old(self).notifier(), &gone, answers),
    {
        let r = match self.conns.remove(&conn_idx) {
            Some(mut pair) => {
                proof {
                    assert(old(self)@.pairs.contains_key(conn_idx));
                    assert(old(self)@.entry_ok(conn_idx));
                }
                let ghost held = pair;
                let answers = pair.release(&self.poll);
                proof {
                    assert(held == old(self).pairs()[conn_idx]);
                    assert(old(self).pairs()[conn_idx].release_calls(
                        old(self).notifier(),
                        &pair,
                        answers,
                    ));
                }
                let r = Some(answers);
                assert(r->Some_0 == answers);
                r
            },
            None => None,
        };
        proof {
            assert(final(self)@.pairs =~= old(self)@.pairs.remove(conn_idx));
        }
        r
    }

    /// Handles one readiness event. Under the listener's token a connection is
    /// accepted; under any other the token's pair takes its step, and is removed at
    /// once where the step ended it. An error is handed back for the caller to
    /// note; the engine is in order and goes on either way.
    pub fn handle_event(&mut self, tok: usize) -> (r: Result<(), FwPairError<Le, Se>>)
        requires
            old(self).wf(),
        ensures
            final(self).wf(),
            old(self).event_calls(tok, final(self), failure_of(r)),
            old(self)@.event(tok, final(self)@, r is Ok),
            tok == LISTENER_TOKEN ==> forall|id: usize| #[trigger]
                old(self).pairs().contains_key(id) ==> final(self).pairs().contains_key(id)
                    && final(self).pairs()[id] == old(self).pairs()[id],
            tok != LISTENER_TOKEN ==> {
                &&& final(self).listener_value() == old(self).listener_value()
                &&& final(self).connector_value() == old(self).connector_value()
                &&& final(self).pairs().dom().subset_of(old(self).pairs().dom())
                &&& forall|id: usize|
                    id != conn_of(tok as int) && #[trigger] old(self).pairs().contains_key(id)
                        ==> final(self).pairs().contains_key(id)
                    && final(self).pairs()[id] == old(self).pairs()[id]
                &&& (r matches Err(e) && e is Lost) == !old(self)@.pairs.contains_key(
                    conn_of(tok as int) as usize,
                )
            },
    {
        let ghost pre = self@;
        let ghost pre_pairs = self.pairs();
        let ghost id = conn_of(tok as int) as usize;
        proof {
            self.lemma_view_of_pairs();
        }
        if tok == LISTENER_TOKEN {
            self.accept()
        } else {
            match self.polled(tok) {
                Ok(()) => {
                    proof {
                        let post = self@;
                        self.lemma_view_of_pairs();
                        assert(pre.pairs.contains_key(id));
                        assert(post.pairs.contains_key(id));
                        assert forall|k: usize| #[trigger]
                            post.pairs.contains_key(k) && k != id implies post.pairs[k]
                            == pre.pairs[k] by {
                            assert(pre_pairs.contains_key(k));
                        }
                        assert(post.pairs =~= pre.pairs.insert(id, post.pairs[id]));
                        assert(pre_pairs[id].event_calls(
                            old(self).notifier(),
                            FwInfo::side_of(tok),
                            &self.pairs()[id],
                            None,
                        ));
                    }
                    Ok(())
                },
                Err(e) => {
                    let (conn_idx, _) = tok_to_conn(tok);
                    let ghost mid_pairs = self.pairs();
                    proof {
                        self.lemma_view_of_pairs();
                    }
                    let freed = self.free(conn_idx);
                    proof {
                        let post = self@;
                        self.lemma_view_of_pairs();
                        assert forall|k: usize| #[trigger]
                            post.pairs.contains_key(k) implies post.pairs[k]
                            == pre.pairs[k] by {
                            assert(pre_pairs.contains_key(k));
                            assert(mid_pairs[k] == pre_pairs[k]);
                        }
                        assert(post.pairs =~= pre.pairs.remove(id));
                        if !pre.pairs.contains_key(id) {
                            assert(pre.pairs.remove(id) =~= pre.pairs);
                            assert(self.pairs() =~= pre_pairs);
                        } else {
                            assert(pre_pairs.contains_key(id));
                            assert(pre_pairs[id].event_calls(
                                old(self).notifier(),
                                FwInfo::side_of(tok),
                                &mid_pairs[id],
                                Some(e),
                            ));
                            assert(freed is Some);
                            assert(self.pairs() =~= pre_pairs.remove(id));
                        }
                    }
                    Err(e)
                },
            }
        }
    }

    /// Handles the events of one poll, in the order in which the notifier gave
    /// them, and answers with the events that ended in an error, each with its
    /// token, in that order too. No error stops the batch.
    pub fn turn(&mut self, toks: &[usize]) -> (r: Vec<(usize, FwPairError<Le, Se>)>)
        requires
            old(self).wf(),
        ensures
            final(self).wf(),
            old(self).turn_calls(toks@, final(self), r@),
            old(self)@.evolved(final(self)@),
            r@.len() <= toks@.len(),
            forall|i: int| 0 <= i < r@.len() ==> toks@.contains(#[trigger] r@[i].0),
    {
        let ghost pre = *self;
        let mut failed: Vec<(usize, FwPairError<Le, Se>)> = Vec::new();
        let mut i: usize = 0;
        proof {
            pre@.lemma_evolved_same();
            assert(toks@.skip(0) =~= toks@);
            assert forall|post: Self, rest: Seq<(usize, FwPairError<Le, Se>)>| #[trigger]
                self.turn_calls(toks@.skip(0), &post, rest) implies pre.turn_calls(
                toks@,
                &post,
                failed@ + rest,
            ) by {
                assert(failed@ + rest =~= rest);
            }
        }
        while i < toks.len()
            invariant
                i <= toks@.len(),
                self.wf(),
                pre.wf(),
                pre@.evolved(self@),
                failed@.len() <= i,
                forall|k: int| 0 <= k < failed@.len() ==> toks@.contains(#[trigger] failed@[k].0),
                forall|post: Self, rest: Seq<(usize, FwPairError<Le, Se>)>| #[trigger]
                    self.turn_calls(toks@.skip(i as int), &post, rest) ==> pre.turn_calls(
                        toks@,
                        &post,
                        failed@ + rest,
                    ),
            decreases toks@.len() - i,
        {
            let tok = toks[i];
            let ghost cur = *self;
            let ghost done = failed@;
            let r = self.handle_event(tok);
            proof {
                cur@.lemma_event_evolves(tok, self@, r is Ok);
                pre@.lemma_evolved_chain(cur@, self@);
                assert(toks@.skip(i as int)[0] == tok);
                assert(toks@.skip(i as int).skip(1) =~= toks@.skip(i + 1));
            }
            match r {
                Ok(()) => {
                    proof {
                        assert forall|post: Self, rest: Seq<(usize, FwPairError<Le, Se>)>| #[trigger]
                            self.turn_calls(toks@.skip(i + 1), &post, rest) implies pre.turn_calls(
                            toks@,
                            &post,
                            failed@ + rest,
                        ) by {
                            assert(cur.event_calls(tok, self, None));
                            assert(cur.turn_calls(toks@.skip(i as int), &post, rest));
                        }
                    }
                },
                Err(e) => {
                    failed.push((tok, e));
                    proof {
                        assert forall|post: Self, rest: Seq<(usize, FwPairError<Le, Se>)>| #[trigger]
                            self.turn_calls(toks@.skip(i + 1), &post, rest) implies pre.turn_calls(
                            toks@,
                            &post,
                            failed@ + rest,
                        ) by {
                            let more = seq![(tok, e)] + rest;
                            assert(more.skip(1) =~= rest);
                            assert(cur.event_calls(tok, self, Some(e)));
                            assert(cur.turn_calls(toks@.skip(i as int), &post, more));
                            assert(done + more =~= failed@ + rest);
                        }
                    }
                },
            }
            i = i + 1;
        }
        proof {
            assert(toks@.skip(i as int) =~= Seq::<usize>::empty());
            assert(self.turn_calls(toks@.skip(i as int), self, Seq::empty()));
            assert(failed@ + Seq::<(usize, FwPairError<Le, Se>)>::empty() =~= failed@);
        }
        failed
    }
}

/// One call for a new notifier returned `out`.
pub closed spec fn poll_call(out: Result<Poll, IoError>) -> bool {
    call_ensures(new_poll, (), out)
}

/// Asks `mio` for a notifier by `Poll::new`, which hands over the system's answer:
/// a new notifier, or the error that kept it from making one.
#[verifier::external_body]
fn new_poll() -> (r: Result<Poll, IoError>) {
    Poll::new()
}

} // verus!

