//! The four kinds of endpoint that the engine is made for, the slot that holds one
//! side of a pair, and the calls on endpoints as contracts speak of them.

use crate::error::FwError;
use mio::Poll;
use std::fmt::Debug;
use std::io::Error as IoError;
use vstd::prelude::*;
use vstd::std_specs::convert::FromSpecImpl;

verus! {

/// The readiness notifier of `mio`, carried through as an opaque value.
#[verifier::external_type_specification]
#[verifier::external_body]
pub struct ExPoll(mio::Poll);

/// A live, bidirectional byte stream over one transport endpoint.
///
/// The engine believes nothing of what an implementation returns: a count that
/// cannot be true ends the pair like any other failure.
pub trait Chan {
    type Err: Debug;

    /// Tries to write `buff`; an `Ok` carries how many of its bytes, from the
    /// front, the transport took, which may be fewer than all. Any `Err` ends the
    /// pair, also one that only says that the write would have had to wait.
    fn send(&mut self, buff: &[u8]) -> (r: Result<usize, FwError<Self::Err>>);

    /// Tries to read into `buff`: `Some(n)` with `n > 0` for `n` bytes at its front,
    /// `Some(0)` when the peer has closed, `None` when nothing is ready now and the
    /// next readiness is to be waited for. An implementation turns "would block"
    /// into `None`, never into an `Err`.
    ///
    /// The one thing stated of it holds of every implementation: a slice keeps its
    /// length.
    fn recv(&mut self, buff: &mut [u8]) -> (r: Result<Option<usize>, FwError<Self::Err>>)
        ensures
            final(buff)@.len() == old(buff)@.len(),
    ;
}

/// Calls `recv`, and hands back its answer together with the channel and the
/// bytes of the buffer as the call left them, for contracts to speak of.
pub fn recv_on<R: Chan>(chan: &mut R, buff: &mut [u8]) -> (r: (
    Result<Option<usize>, FwError<R::Err>>,
    Ghost<(R, Seq<u8>)>,
))
    ensures
        r.1@ == (*final(chan), final(buff)@),
        final(buff)@.len() == old(buff)@.len(),
        exists|c: &mut R, b: &mut [u8]|
            {
                &&& #[trigger] call_ensures(R::recv, (c, b), r.0)
                &&& *c == *old(chan)
                &&& *final(c) == *final(chan)
                &&& b@ == old(buff)@
                &&& final(b)@ == final(buff)@
            },
{
    let out = chan.recv(buff);
    let r = (out, Ghost((*chan, buff@)));
    assert(r.0 == out);
    r
}

/// Calls `send`, and hands back its answer together with the channel as the call
/// left it, for contracts to speak of.
pub fn send_on<W: Chan>(chan: &mut W, buff: &[u8]) -> (r: (
    Result<usize, FwError<W::Err>>,
    Ghost<W>,
))
    ensures
        r.1@ == *final(chan),
        exists|c: &mut W, b: &[u8]|
            {
                &&& #[trigger] call_ensures(W::send, (c, b), r.0)
                &&& *c == *old(chan)
                &&& *final(c) == *final(chan)
                &&& b@ == buff@
            },
{
    let out = chan.send(buff);
    let r = (out, Ghost(*chan));
    assert(r.0 == out);
    r
}

/// One call of `recv`: made on a channel that was `pre`, with a buffer that held
/// `before`, it returned `out`, and left the channel as `post` and the buffer
/// holding `after`.
pub open spec fn recv_call<R: Chan>(
    pre: R,
    before: Seq<u8>,
    out: Result<Option<usize>, FwError<R::Err>>,
    post: R,
    after: Seq<u8>,
) -> bool {
    exists|c: &mut R, b: &mut [u8]|
        {
            &&& #[trigger] call_ensures(recv_on::<R>, (c, b), (out, Ghost((post, after))))
            &&& *c == pre
            &&& b@ == before
        }
}

/// One call of `send`: made on a channel that was `pre`, with the bytes `bytes`,
/// it returned `out` and left the channel as `post`.
pub open spec fn send_call<W: Chan>(
    pre: W,
    bytes: Seq<u8>,
    out: Result<usize, FwError<W::Err>>,
    post: W,
) -> bool {
    exists|c: &mut W, b: &[u8]|
        {
            &&& #[trigger] call_ensures(send_on::<W>, (c, b), (out, Ghost(post)))
            &&& *c == pre
            &&& b@ == bytes
        }
}

/// Something with a handle that the notifier can watch.
pub trait Pollable {
    /// Subscribes the handle under `tok`, for reading and writing: a channel by
    /// edge, a listener by level.
    fn register(&self, poll: &Poll, tok: usize) -> (r: Result<(), IoError>);

    /// Ends the subscription.
    fn deregister(&self, poll: &Poll) -> (r: Result<(), IoError>);
}

/// A connection that has to complete a handshake before it carries bytes. A
/// transport without a handshake is a `MidChan` whose first step completes.
pub trait MidChan {
    type Err: Debug;

    type C: Chan<Err = Self::Err>;

    /// Takes one more step of the handshake: `Active` with the channel when the
    /// handshake is complete, `Pending` with what is to be tried again when it
    /// would have had to wait. An implementation that fails for good ends its own
    /// subscription with `poll` before it returns the error: the engine cannot,
    /// once the value is gone.
    fn try_channel(self, poll: &Poll) -> (r: Result<
        NextState<Self::Err, Self::C, Self>,
        FwError<Self::Err>,
    >) where Self: std::marker::Sized;
}

/// Produces inbound connections.
pub trait Listener {
    type Err: Debug;

    type C: Chan<Err = Self::Err>;

    type PC: MidChan<Err = Self::Err, C = Self::C>;

    /// Accepts one connection, if one is waiting: `None` when none is.
    fn accept(&mut self) -> (r: Result<
        Option<NextState<Self::Err, Self::C, Self::PC>>,
        FwError<Self::Err>,
    >);
}

/// Produces outbound connections.
pub trait Connector {
    type Err: Debug;

    type C: Chan<Err = Self::Err>;

    type PC: MidChan<C = Self::C, Err = Self::Err>;

    /// Dials one new connection, which does not block.
    fn connect(&mut self) -> (r: Result<
        NextState<Self::Err, Self::C, Self::PC>,
        FwError<Self::Err>,
    >);
}

/// Calls `accept`, and hands back its answer together with the listener as the
/// call left it, for contracts to speak of.
pub fn accept_on<L: Listener>(listener: &mut L) -> (r: (
    Result<Option<NextState<L::Err, L::C, L::PC>>, FwError<L::Err>>,
    Ghost<L>,
))
    ensures
        r.1@ == *final(listener),
        exists|c: &mut L|
            {
                &&& #[trigger] call_ensures(L::accept, (c,), r.0)
                &&& *c == *old(listener)
                &&& *final(c) == *final(listener)
            },
{
    let out = listener.accept();
    let r = (out, Ghost(*listener));
    assert(r.0 == out);
    r
}

/// Calls `connect`, and hands back its answer together with the connector as the
/// call left it, for contracts to speak of.
pub fn connect_on<S: Connector>(connector: &mut S) -> (r: (
    Result<NextState<S::Err, S::C, S::PC>, FwError<S::Err>>,
    Ghost<S>,
))
    ensures
        r.1@ == *final(connector),
        exists|c: &mut S|
            {
                &&& #[trigger] call_ensures(S::connect, (c,), r.0)
                &&& *c == *old(connector)
                &&& *final(c) == *final(connector)
            },
{
    let out = connector.connect();
    let r = (out, Ghost(*connector));
    assert(r.0 == out);
    r
}

/// One call of `accept`: made on a listener that was `pre`, it returned `out` and
/// left the listener as `post`.
pub open spec fn accept_call<L: Listener>(
    pre: L,
    out: Result<Option<NextState<L::Err, L::C, L::PC>>, FwError<L::Err>>,
    post: L,
) -> bool {
    exists|c: &mut L|
        {
            &&& #[trigger] call_ensures(accept_on::<L>, (c,), (out, Ghost(post)))
            &&& *c == pre
        }
}

/// One call of `connect`: made on a connector that was `pre`, it returned `out`
/// and left the connector as `post`.
pub open spec fn connect_call<S: Connector>(
    pre: S,
    out: Result<NextState<S::Err, S::C, S::PC>, FwError<S::Err>>,
    post: S,
) -> bool {
    exists|c: &mut S|
        {
            &&& #[trigger] call_ensures(connect_on::<S>, (c,), (out, Ghost(post)))
            &&& *c == pre
        }
}

/// What a listener, a connector or a handshake step hands over.
#[derive(Debug)]
#[verifier::reject_recursive_types(E)]
#[verifier::reject_recursive_types(A)]
#[verifier::reject_recursive_types(B)]
pub enum NextState<E: Debug, A: Chan<Err = E>, B: MidChan<Err = E, C = A>> {
    Pending(B),
    Active(A),
}

/// One endpoint slot of a pair. `Swapping` stands in a slot only while what it held
/// is out for a handshake step.
#[verifier::reject_recursive_types(E)]
#[verifier::reject_recursive_types(A)]
#[verifier::reject_recursive_types(B)]
pub enum State<E: Debug, A: Chan<Err = E> + Pollable, B: MidChan<Err = E, C = A> + Pollable> {
    Pending(B),
    Active(A),
    Swapping,
    Lost,
}

/// Which of its states a slot is in, whatever it holds.
#[derive(Clone, Copy, Debug, PartialEq, Eq, Structural)]
pub enum Slot {
    Pending,
    Active,
    Swapping,
    Lost,
}

impl Slot {
    /// The state's name, in round brackets.
    pub open spec fn label(self) -> Seq<char> {
        match self {
            Slot::Pending => "(Pending)"@,
            Slot::Active => "(Active)"@,
            Slot::Swapping => "(Swapping)"@,
            Slot::Lost => "(Lost)"@,
        }
    }

    /// The state's name, in round brackets, as it is shown to a reader.
    pub fn name(self) -> (r: &'static str)
        ensures
            r@ == self.label(),
    {
        match self {
            Slot::Pending => "(Pending)",
            Slot::Active => "(Active)",
            Slot::Swapping => "(Swapping)",
            Slot::Lost => "(Lost)",
        }
    }
}

impl<E: Debug, A: Chan<Err = E> + Pollable, B: MidChan<Err = E, C = A> + Pollable> State<E, A, B> {
    /// The state without what it holds.
    pub open spec fn slot(&self) -> Slot {
        match self {
            State::Pending(_) => Slot::Pending,
            State::Active(_) => Slot::Active,
            State::Swapping => Slot::Swapping,
            State::Lost => Slot::Lost,
        }
    }

    /// What a handshake step made of a slot: the slot's next state, and whether the
    /// slot has become active.
    pub open spec fn settled(out: Result<NextState<E, A, B>, FwError<E>>) -> (
        Self,
        Result<bool, FwError<E>>,
    ) {
        match out {
            Ok(NextState::Pending(x)) => (State::Pending(x), Ok(false)),
            Ok(NextState::Active(x)) => (State::Active(x), Ok(true)),
            Err(e) => (State::Lost, Err(e)),
        }
    }

    /// One step of the handshake of a pending slot: `try_channel`, called on what
    /// the slot held and with the notifier `poll`, returned what made the slot
    /// `post` and the answer `r`.
    pub open spec fn step_call(self, poll: &Poll, post: Self, r: Result<bool, FwError<E>>) -> bool {
        &&& self is Pending
        &&& exists|out: Result<NextState<E, A, B>, FwError<E>>|
            {
                &&& #[trigger] call_ensures(B::try_channel, (self->Pending_0, poll), out)
                &&& (post, r) == Self::settled(out)
            }
    }

    /// One call of `register`, on what the slot holds, with the notifier `poll` and
    /// the token `tok`, returned `r`.
    pub open spec fn register_call(&self, poll: &Poll, tok: usize, r: Result<(), IoError>) -> bool {
        match self {
            State::Active(x) => call_ensures(A::register, (x, poll, tok), r),
            State::Pending(x) => call_ensures(B::register, (x, poll, tok), r),
            _ => false,
        }
    }

    /// One call of `deregister`, on what the slot holds and with the notifier
    /// `poll`, returned `r`. A lost slot holds nothing: no call is made for it, and
    /// `r` is `Ok`.
    pub open spec fn deregister_call(&self, poll: &Poll, r: Result<(), IoError>) -> bool {
        match self {
            State::Active(x) => call_ensures(A::deregister, (x, poll), r),
            State::Pending(x) => call_ensures(B::deregister, (x, poll), r),
            State::Lost => r is Ok,
            State::Swapping => false,
        }
    }

    /// The state as a tag, for callers that only look.
    pub fn kind(&self) -> (r: Slot)
        ensures
            r == self.slot(),
    {
        match self {
            State::Pending(_) => Slot::Pending,
            State::Active(_) => Slot::Active,
            State::Swapping => Slot::Swapping,
            State::Lost => Slot::Lost,
        }
    }

    /// Whether the slot holds a channel that is ready to carry bytes.
    pub fn is_active(&self) -> (r: bool)
        ensures
            r == (self.slot() == Slot::Active),
    {
        match self {
            State::Active(_) => true,
            _ => false,
        }
    }

    /// The channel of an active slot.
    pub fn chan(&mut self) -> (r: &mut A)
        requires
            old(self).slot() == Slot::Active,
        ensures
            *r == (*old(self))->Active_0,
            *final(self) == State::<E, A, B>::Active(*final(r)),
    {
        match self {
            State::Active(x) => x,
            _ => vstd::pervasive::unreached(),
        }
    }

    /// Subscribes what the slot holds under `tok`.
    pub fn register(&self, poll: &Poll, tok: usize) -> (r: Result<(), IoError>)
        requires
            self.slot() == Slot::Pending || self.slot() == Slot::Active,
        ensures
            self.register_call(poll, tok, r),
    {
        match self {
            State::Active(x) => x.register(poll, tok),
            State::Pending(x) => x.register(poll, tok),
            _ => vstd::pervasive::unreached(),
        }
    }

    /// Ends the subscription of what the slot holds. A lost slot holds nothing, and
    /// for it this does nothing and succeeds.
    pub fn deregister(&self, poll: &Poll) -> (r: Result<(), IoError>)
        requires
            self.slot() != Slot::Swapping,
        ensures
            self.deregister_call(poll, r),
    {
        match self {
            State::Active(x) => x.deregister(poll),
            State::Pending(x) => x.deregister(poll),
            State::Lost => Ok(()),
            State::Swapping => vstd::pervasive::unreached(),
        }
    }

    /// Turns the outcome of a handshake step into the slot's next state and the
    /// answer for the caller.
    pub fn settle(out: Result<NextState<E, A, B>, FwError<E>>) -> (r: (
        Self,
        Result<bool, FwError<E>>,
    ))
        ensures
            r == Self::settled(out),
    {
        match out {
            Ok(NextState::Pending(x)) => (State::Pending(x), Ok(false)),
            Ok(NextState::Active(x)) => (State::Active(x), Ok(true)),
            Err(e) => (State::Lost, Err(e)),
        }
    }
}

impl<E: Debug, A: Chan<Err = E> + Pollable, B: MidChan<Err = E, C = A> + Pollable> From<
    NextState<E, A, B>,
> for State<E, A, B> {
    fn from(x: NextState<E, A, B>) -> (r: State<E, A, B>) {
        match x {
            NextState::Active(x) => State::Active(x),
            NextState::Pending(x) => State::Pending(x),
        }
    }
}

impl<E: Debug, A: Chan<Err = E> + Pollable, B: MidChan<Err = E, C = A> + Pollable> FromSpecImpl<
    NextState<E, A, B>,
> for State<E, A, B> {
    open spec fn obeys_from_spec() -> bool {
        true
    }

    open spec fn from_spec(x: NextState<E, A, B>) -> Self {
        match x {
            NextState::Active(x) => State::Active(x),
            NextState::Pending(x) => State::Pending(x),
        }
    }
}

/// Drives a pending slot one handshake step further. The slot stays pending when
/// the handshake needs more (`Ok(false)`), turns active when it is complete
/// (`Ok(true)`), and is lost when it failed.
pub fn try_proceed<E: Debug, A: Chan<Err = E> + Pollable, B: MidChan<Err = E, C = A> + Pollable>(
    poll: &Poll,
    st: &mut State<E, A, B>,
) -> (r: Result<bool, FwError<E>>)
    requires
        old(st).slot() == Slot::Pending,
    ensures
        old(st).step_call(poll, *final(st), r),
        match r {
            Ok(false) => final(st).slot() == Slot::Pending,
            Ok(true) => final(st).slot() == Slot::Active,
            Err(_) => final(st).slot() == Slot::Lost,
        },
{
    let mut prev = State::Swapping;
    std::mem::swap(&mut prev, st);
    match prev {
        State::Pending(x) => {
            let (next, answer) = State::settle(x.try_channel(poll));
            *st = next;
            answer
        },
        _ => vstd::pervasive::unreached(),
    }
}

} // verus!
