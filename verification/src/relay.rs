//! The relay of bytes from one channel to another.

use crate::chan::{recv_call, recv_on, send_call, send_on, Chan};
use crate::error::{failure_of, FwError, FwPairError};
use std::fmt::Debug;
use vstd::prelude::*;
use vstd::slice::slice_subrange;

verus! {

/// What a read from the source side into a buffer of `cap` bytes means for the
/// pair: a chunk of `n > 0` bytes to forward, nothing to do for now, or the end of
/// the pair. A count of more bytes than the buffer has cannot be true, and ends the
/// pair as a failure of the source side that carries the count.
pub open spec fn read_verdict<Re: Debug, We: Debug>(
    read: Result<Option<usize>, FwError<Re>>,
    cap: int,
) -> Result<Option<usize>, FwPairError<Re, We>> {
    match read {
        Ok(Some(n)) => if n == 0 {
            Err(FwPairError::Disconnected)
        } else if n <= cap {
            Ok(Some(n))
        } else {
            Err(FwPairError::L(FwError::Custom(n)))
        },
        Ok(None) => Ok(None),
        Err(e) => Err(FwPairError::L(e)),
    }
}

/// Judges what the source side's `recv` returned for a buffer of `cap` bytes.
pub fn judge_read<Re: Debug, We: Debug>(
    read: Result<Option<usize>, FwError<Re>>,
    cap: usize,
) -> (r: Result<Option<usize>, FwPairError<Re, We>>)
    ensures
        r == read_verdict::<Re, We>(read, cap as int),
{
    match read {
        Ok(Some(n)) => if n == 0 {
            Err(FwPairError::Disconnected)
        } else if n <= cap {
            Ok(Some(n))
        } else {
            Err(FwPairError::L(FwError::Custom(n)))
        },
        Ok(None) => Ok(None),
        Err(e) => Err(FwPairError::L(e)),
    }
}

/// What a write of `left > 0` outstanding bytes to the target side means: how many
/// bytes are still outstanding, or the end of the pair. A transport that takes
/// nothing will take nothing later either, and one that claims more than it was
/// offered cannot be believed: both count as the target having gone away.
pub open spec fn write_verdict<Re: Debug, We: Debug>(
    written: Result<usize, FwError<We>>,
    left: int,
) -> Result<usize, FwPairError<Re, We>> {
    match written {
        Ok(n) => if 0 < n <= left {
            Ok((left - n) as usize)
        } else {
            Err(FwPairError::S(FwError::Disconnected))
        },
        Err(e) => Err(FwPairError::S(e)),
    }
}

/// Judges what the target side's `send` returned for `left` outstanding bytes.
pub fn judge_write<Re: Debug, We: Debug>(written: Result<usize, FwError<We>>, left: usize) -> (r:
    Result<usize, FwPairError<Re, We>>)
    ensures
        r == write_verdict::<Re, We>(written, left as int),
{
    match written {
        Ok(n) => if 0 < n && n <= left {
            Ok(left - n)
        } else {
            Err(FwPairError::S(FwError::Disconnected))
        },
        Err(e) => Err(FwPairError::S(e)),
    }
}

/// The bytes `bytes` written in full to a channel that was `pre`: by one call of
/// `send` after the other, each with the bytes that the calls before it have not
/// taken, until none is left or a call ends the pair, with its verdict as
/// `failure`. The channel is left as `post`.
pub open spec fn sent_all<Re: Debug, W: Chan>(
    pre: W,
    bytes: Seq<u8>,
    post: W,
    failure: Option<FwPairError<Re, W::Err>>,
) -> bool
    decreases bytes.len(),
{
    if bytes.len() == 0 {
        post == pre && failure is None
    } else {
        exists|out: Result<usize, FwError<W::Err>>, mid: W|
            {
                &&& #[trigger] send_call(pre, bytes, out, mid)
                &&& match write_verdict::<Re, W::Err>(out, bytes.len() as int) {
                    Ok(rest) => rest < bytes.len() && sent_all(
                        mid,
                        bytes.skip(bytes.len() - rest),
                        post,
                        failure,
                    ),
                    Err(e) => post == mid && failure == Some(e),
                }
            }
    }
}

/// The bytes `taken` that a channel took, one call of `send` after the other, while
/// `bytes` were written to it as `sent_all` tells: of each call that took `n` bytes,
/// the first `n` of what it was handed.
pub open spec fn took<Re: Debug, W: Chan>(
    pre: W,
    bytes: Seq<u8>,
    post: W,
    failure: Option<FwPairError<Re, W::Err>>,
    taken: Seq<u8>,
) -> bool
    decreases bytes.len(),
{
    if bytes.len() == 0 {
        post == pre && failure is None && taken.len() == 0
    } else {
        exists|out: Result<usize, FwError<W::Err>>, mid: W|
            {
                &&& #[trigger] send_call(pre, bytes, out, mid)
                &&& match write_verdict::<Re, W::Err>(out, bytes.len() as int) {
                    Ok(rest) => {
                        let n = bytes.len() - rest;
                        &&& rest < bytes.len()
                        &&& taken.len() >= n
                        &&& taken.take(n) == bytes.take(n)
                        &&& took(mid, bytes.skip(n), post, failure, taken.skip(n))
                    },
                    Err(e) => post == mid && failure == Some(e) && taken.len() == 0,
                }
            }
    }
}

/// Whatever is written as `sent_all` tells, the channel took some bytes of it.
pub proof fn lemma_sent_is_taken<Re: Debug, W: Chan>(
    pre: W,
    bytes: Seq<u8>,
    post: W,
    failure: Option<FwPairError<Re, W::Err>>,
) -> (taken: Seq<u8>)
    requires
        sent_all::<Re, W>(pre, bytes, post, failure),
    ensures
        took::<Re, W>(pre, bytes, post, failure, taken),
    decreases bytes.len(),
{
    if bytes.len() == 0 {
        Seq::empty()
    } else {
        let (out, mid) = choose|out: Result<usize, FwError<W::Err>>, mid: W|
            {
                &&& #[trigger] send_call(pre, bytes, out, mid)
                &&& match write_verdict::<Re, W::Err>(out, bytes.len() as int) {
                    Ok(rest) => rest < bytes.len() && sent_all(
                        mid,
                        bytes.skip(bytes.len() - rest),
                        post,
                        failure,
                    ),
                    Err(e) => post == mid && failure == Some(e),
                }
            };
        match write_verdict::<Re, W::Err>(out, bytes.len() as int) {
            Ok(rest) => {
                let n = bytes.len() - rest;
                let more = lemma_sent_is_taken::<Re, W>(mid, bytes.skip(n), post, failure);
                let taken = bytes.take(n) + more;
                assert(taken.take(n) =~= bytes.take(n));
                assert(taken.skip(n) =~= more);
                taken
            },
            Err(e) => Seq::empty(),
        }
    }
}

/// What a channel took of the bytes written to it is a beginning of them, byte for
/// byte and in order; and it is all of them where nothing ended the pair. So a
/// relay step that goes well hands the target exactly the chunk that the source
/// gave, no byte lost, added or out of its place.
pub proof fn lemma_taken_in_order<Re: Debug, W: Chan>(
    pre: W,
    bytes: Seq<u8>,
    post: W,
    failure: Option<FwPairError<Re, W::Err>>,
    taken: Seq<u8>,
)
    requires
        took::<Re, W>(pre, bytes, post, failure, taken),
    ensures
        taken.len() <= bytes.len(),
        taken == bytes.take(taken.len() as int),
        failure is None ==> taken == bytes,
    decreases bytes.len(),
{
    if bytes.len() == 0 {
        assert(taken =~= bytes.take(0));
        assert(taken =~= bytes);
    } else {
        let (out, mid) = choose|out: Result<usize, FwError<W::Err>>, mid: W|
            {
                &&& #[trigger] send_call(pre, bytes, out, mid)
                &&& match write_verdict::<Re, W::Err>(out, bytes.len() as int) {
                    Ok(rest) => {
                        let n = bytes.len() - rest;
                        &&& rest < bytes.len()
                        &&& taken.len() >= n
                        &&& taken.take(n) == bytes.take(n)
                        &&& took(mid, bytes.skip(n), post, failure, taken.skip(n))
                    },
                    Err(e) => post == mid && failure == Some(e) && taken.len() == 0,
                }
            };
        match write_verdict::<Re, W::Err>(out, bytes.len() as int) {
            Ok(rest) => {
                let n = bytes.len() - rest;
                lemma_taken_in_order::<Re, W>(mid, bytes.skip(n), post, failure, taken.skip(n));
                let m = taken.skip(n).len() as int;
                assert(taken =~= taken.take(n) + taken.skip(n));
                assert(bytes.skip(n).take(m) =~= bytes.subrange(n, n + m));
                assert(bytes.take(n) + bytes.subrange(n, n + m) =~= bytes.take(n + m));
                if failure is None {
                    assert(bytes =~= bytes.take(n) + bytes.skip(n));
                }
            },
            Err(e) => {
                assert(taken =~= bytes.take(0));
            },
        }
    }
}

/// One relay step between a source that was `a` and a target that was `b`, through
/// a buffer that held `buf`: one call of `recv` on the source, and, if that gave a
/// chunk, the chunk written in full to the target, byte for byte as `recv` left it
/// at the front of the buffer. The answer is the size of the chunk, `None` if the
/// source had nothing ready, or what ended the pair.
pub open spec fn relayed_once<R: Chan, W: Chan>(
    a: R,
    b: W,
    buf: Seq<u8>,
    a2: R,
    b2: W,
    buf2: Seq<u8>,
    r: Result<Option<usize>, FwPairError<R::Err, W::Err>>,
) -> bool {
    exists|read: Result<Option<usize>, FwError<R::Err>>|
        {
            &&& #[trigger] recv_call(a, buf, read, a2, buf2)
            &&& match read_verdict::<R::Err, W::Err>(read, buf.len() as int) {
                Ok(Some(n)) => match r {
                    Ok(got) => got == Some(n) && sent_all::<R::Err, W>(
                        b,
                        buf2.take(n as int),
                        b2,
                        None,
                    ),
                    Err(e) => sent_all::<R::Err, W>(b, buf2.take(n as int), b2, Some(e)),
                },
                Ok(None) => b2 == b && r == Ok::<Option<usize>, FwPairError<R::Err, W::Err>>(None),
                Err(e) => b2 == b && r == Err::<Option<usize>, FwPairError<R::Err, W::Err>>(e),
            }
        }
}

/// Relay steps, one after the other, for as long as each gives a chunk, with
/// `total` bytes moved before the first of them. The answer is the number of bytes
/// moved in all once the source has nothing more ready, or what ended the pair. The
/// number is held at the largest `usize`, and the relay stops where it gets there.
pub open spec fn relayed_all<R: Chan, W: Chan>(
    a: R,
    b: W,
    buf: Seq<u8>,
    total: usize,
    a2: R,
    b2: W,
    buf2: Seq<u8>,
    r: Result<Option<usize>, FwPairError<R::Err, W::Err>>,
) -> bool
    decreases usize::MAX - total,
{
    exists|am: R, bm: W, bufm: Seq<u8>, step: Result<Option<usize>, FwPairError<R::Err, W::Err>>|
        {
            &&& #[trigger] relayed_once(a, b, buf, am, bm, bufm, step)
            &&& match step {
                Ok(Some(n)) => if n == 0 {
                    false
                } else if n > usize::MAX - total {
                    a2 == am && b2 == bm && buf2 == bufm && r == Ok::<
                        Option<usize>,
                        FwPairError<R::Err, W::Err>,
                    >(Some(usize::MAX))
                } else {
                    relayed_all(am, bm, bufm, (total + n) as usize, a2, b2, buf2, r)
                },
                Ok(None) => a2 == am && b2 == bm && buf2 == bufm && r == Ok::<
                    Option<usize>,
                    FwPairError<R::Err, W::Err>,
                >(Some(total)),
                Err(e) => a2 == am && b2 == bm && buf2 == bufm && r == Err::<
                    Option<usize>,
                    FwPairError<R::Err, W::Err>,
                >(e),
            }
        }
}

/// Writes `buff[..len]` to `chan` in full, asking again after every short write.
pub fn send_all<Re: Debug, We: Debug, W: Chan<Err = We>>(
    buff: &[u8],
    len: usize,
    chan: &mut W,
) -> (r: Result<(), FwPairError<Re, We>>)
    requires
        len <= buff@.len(),
    ensures
        sent_all::<Re, W>(*old(chan), buff@.take(len as int), *final(chan), failure_of(r)),
        r matches Err(e) ==> e is S,
{
    let ghost all = buff@.take(len as int);
    let mut left: usize = len;
    proof {
        assert(all.skip(len - left) =~= all);
    }
    while left > 0
        invariant
            left <= len <= buff@.len(),
            all == buff@.take(len as int),
            forall|post: W, failure: Option<FwPairError<Re, We>>| #[trigger]
                sent_all::<Re, W>(*chan, all.skip(len - left), post, failure) ==> sent_all::<
                    Re,
                    W,
                >(*old(chan), all, post, failure),
        decreases left,
    {
        let ghost cur = *chan;
        let ghost rem = all.skip(len - left);
        let part = slice_subrange(buff, len - left, len);
        proof {
            assert(part@ =~= rem);
        }
        let (written, _) = send_on(chan, part);
        proof {
            assert(send_call(cur, rem, written, *chan));
        }
        match judge_write::<Re, We>(written, left) {
            Ok(rest) => {
                proof {
                    assert(rem.skip(rem.len() - rest) =~= all.skip(len - rest));
                    assert forall|post: W, failure: Option<FwPairError<Re, We>>| #[trigger]
                        sent_all::<Re, W>(
                            *chan,
                            all.skip(len - rest),
                            post,
                            failure,
                        ) implies sent_all::<Re, W>(*old(chan), all, post, failure) by {
                        assert(sent_all::<Re, W>(cur, rem, post, failure));
                    }
                }
                left = rest;
            },
            Err(e) => {
                proof {
                    assert(sent_all::<Re, W>(cur, rem, *chan, Some(e)));
                }
                return Err(e);
            },
        }
    }
    proof {
        assert(sent_all::<Re, W>(*chan, all.skip(len - left), *chan, None));
    }
    Ok(())
}

/// One relay step: reads once from `chan_a` and, if that gave a chunk, writes all
/// of it to `chan_b`.
pub fn handle_once<Re: Debug, We: Debug, R: Chan<Err = Re>, W: Chan<Err = We>>(
    buff: &mut [u8],
    chan_a: &mut R,
    chan_b: &mut W,
) -> (r: Result<Option<usize>, FwPairError<Re, We>>)
    ensures
        relayed_once(
            *old(chan_a),
            *old(chan_b),
            old(buff)@,
            *final(chan_a),
            *final(chan_b),
            final(buff)@,
            r,
        ),
        final(buff)@.len() == old(buff)@.len(),
        r matches Ok(Some(n)) ==> 0 < n <= old(buff)@.len(),
        r matches Err(e) ==> !(e is Lost),
{
    let cap = buff.len();
    let (read, _) = recv_on(chan_a, buff);
    proof {
        assert(recv_call(*old(chan_a), old(buff)@, read, *chan_a, buff@));
    }
    match judge_read::<Re, We>(read, cap) {
        Ok(Some(x)) => {
            match send_all::<Re, We, W>(buff, x, chan_b) {
                Ok(()) => Ok(Some(x)),
                Err(e) => Err(e),
            }
        },
        Ok(None) => Ok(None),
        Err(e) => Err(e),
    }
}

/// Relays from `chan_a` to `chan_b` until `chan_a` has nothing more ready, and
/// answers with the number of bytes moved. The number is held at the largest
/// `usize`; once it is reached the relay stops for this event.
pub fn handle_rw<Re: Debug, We: Debug, R: Chan<Err = Re>, W: Chan<Err = We>>(
    buff: &mut [u8],
    chan_a: &mut R,
    chan_b: &mut W,
) -> (r: Result<Option<usize>, FwPairError<Re, We>>)
    ensures
        relayed_all(
            *old(chan_a),
            *old(chan_b),
            old(buff)@,
            0,
            *final(chan_a),
            *final(chan_b),
            final(buff)@,
            r,
        ),
        final(buff)@.len() == old(buff)@.len(),
        r is Ok ==> r->Ok_0 is Some,
        r matches Err(e) ==> !(e is Lost),
{
    let mut total: usize = 0;
    loop
        invariant
            buff@.len() == old(buff)@.len(),
            forall|a2: R, b2: W, buf2: Seq<u8>, r: Result<Option<usize>, FwPairError<Re, We>>| #[trigger]
                relayed_all(*chan_a, *chan_b, buff@, total, a2, b2, buf2, r) ==> relayed_all(
                    *old(chan_a),
                    *old(chan_b),
                    old(buff)@,
                    0,
                    a2,
                    b2,
                    buf2,
                    r,
                ),
        decreases usize::MAX - total,
    {
        let ghost a = *chan_a;
        let ghost b = *chan_b;
        let ghost buf = buff@;
        let step = handle_once(buff, chan_a, chan_b);
        match step {
            Ok(Some(x)) => {
                if x > usize::MAX - total {
                    proof {
                        assert(relayed_all(
                            a,
                            b,
                            buf,
                            total,
                            *chan_a,
                            *chan_b,
                            buff@,
                            Ok(Some(usize::MAX)),
                        ));
                    }
                    return Ok(Some(usize::MAX));
                }
                proof {
                    assert forall|
                        a2: R,
                        b2: W,
                        buf2: Seq<u8>,
                        r: Result<Option<usize>, FwPairError<Re, We>>,
                    | #[trigger]
                        relayed_all(
                            *chan_a,
                            *chan_b,
                            buff@,
                            (total + x) as usize,
                            a2,
                            b2,
                            buf2,
                            r,
                        ) implies relayed_all(
                        *old(chan_a),
                        *old(chan_b),
                        old(buff)@,
                        0,
                        a2,
                        b2,
                        buf2,
                        r,
                    ) by {
                        assert(relayed_all(a, b, buf, total, a2, b2, buf2, r));
                    }
                }
                total = total + x;
            },
            Ok(None) => {
                proof {
                    assert(relayed_all(a, b, buf, total, *chan_a, *chan_b, buff@, Ok(Some(total))));
                }
                return Ok(Some(total));
            },
            Err(e) => {
                proof {
                    assert(relayed_all(a, b, buf, total, *chan_a, *chan_b, buff@, Err(e)));
                }
                return Err(e);
            },
        }
    }
}

} // verus!
