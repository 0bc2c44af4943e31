//! What the transports have in common: the settings of an inbound stream, and the
//! reading of "would block".

use crate::num::{decimal, option_text, parse_u64};
use std::io::Error as IoError;
use std::time::Duration;
use vstd::prelude::*;

verus! {

/// The `Duration` that `Duration::from_millis` makes of a number of milliseconds.
pub uninterp spec fn millis_duration(millis: u64) -> Duration;

/// `Duration::from_millis` depends on its argument alone: the same number of
/// milliseconds gives the same `Duration`.
pub assume_specification[ Duration::from_millis ](millis: u64) -> (d: Duration)
    ensures
        d == millis_duration(millis),
;

/// Asks `std::io::Error::kind` whether the error only says that the call would
/// have had to wait, which is `ErrorKind::WouldBlock`. Nothing is claimed of the
/// answer.
#[verifier::external_body]
fn is_would_block(e: &IoError) -> (r: bool) {
    e.kind() == std::io::ErrorKind::WouldBlock
}

/// Asked whether the error `e` only says that the call would have had to wait,
/// `std::io::Error::kind` answered `waits`.
pub closed spec fn would_block_call(e: &IoError, waits: bool) -> bool {
    call_ensures(is_would_block, (e,), waits)
}

/// What a call on a non-blocking handle came to, once "would block" is read as
/// "nothing now" and no longer as a failure: a result as it is, an error that
/// `std::io::Error::kind` calls `WouldBlock` as `None`, and any other error as it
/// is.
pub open spec fn nonblocking<T>(res: Result<T, IoError>, r: Result<Option<T>, IoError>) -> bool {
    match res {
        Ok(x) => r == Ok::<Option<T>, IoError>(Some(x)),
        Err(e) => exists|waits: bool|
            {
                &&& #[trigger] would_block_call(&e, waits)
                &&& r == if waits {
                    Ok::<Option<T>, IoError>(None)
                } else {
                    Err(e)
                }
            },
    }
}

/// Reads the result of a call on a non-blocking handle: "would block" is no
/// failure but `None`, to be tried again at the next readiness.
pub fn ready_or_none<T>(res: Result<T, IoError>) -> (r: Result<Option<T>, IoError>)
    ensures
        nonblocking(res, r),
{
    match res {
        Ok(x) => Ok(Some(x)),
        Err(e) => {
            let waits = is_would_block(&e);
            proof {
                assert(would_block_call(&e, waits));
            }
            if waits {
                Ok(None)
            } else {
                Err(e)
            }
        },
    }
}

/// How an inbound stream is set up before it is handed on.
#[derive(Debug, Clone)]
pub struct StreamConf {
    /// How long a closed stream lingers to send what is left; `None` for not at all.
    pub linger: Option<Duration>,
    /// After how much silence the stream is probed; `None` for never.
    pub keepalive: Option<Duration>,
}

/// Whether an option is there and writes a `u64`.
pub open spec fn is_millis(value: Option<Seq<u8>>) -> bool {
    value is Some && decimal(value->Some_0, u64::MAX as nat) is Some
}

/// The setting that an option of so many milliseconds asks for: none for 0.
pub open spec fn span_of(value: Option<Seq<u8>>) -> Option<Duration> {
    let millis = decimal(value->Some_0, u64::MAX as nat)->Some_0 as u64;
    if millis == 0 {
        None
    } else {
        Some(millis_duration(millis))
    }
}

/// What keeps the two options from making a `StreamConf`, if anything does: the
/// keep-alive is looked at first, and of each option first whether it is there.
pub open spec fn stream_fault(keepalive: Option<Seq<u8>>, linger: Option<Seq<u8>>) -> Option<
    Seq<char>,
> {
    if keepalive is None {
        Some("keepalive not found"@)
    } else if !is_millis(keepalive) {
        Some("keepalive not int"@)
    } else if linger is None {
        Some("linger not found"@)
    } else if !is_millis(linger) {
        Some("linger not int"@)
    } else {
        None
    }
}

/// The setting for a number of milliseconds: none for 0.
pub fn span(millis: u64) -> (r: Option<Duration>)
    ensures
        r == if millis == 0 {
            None
        } else {
            Some(millis_duration(millis))
        },
{
    if millis == 0 {
        None
    } else {
        Some(Duration::from_millis(millis))
    }
}

impl StreamConf {
    /// Builds the settings from the texts of the two options, each in
    /// milliseconds and as the command line gave it, or `None` where it gave none.
    pub fn parse(keepalive: Option<&str>, linger: Option<&str>) -> (r: Result<
        StreamConf,
        &'static str,
    >)
        ensures
            match stream_fault(option_text(keepalive), option_text(linger)) {
                Some(message) => r matches Err(m) && m@ == message,
                None => r matches Ok(conf) && conf.keepalive == span_of(option_text(keepalive))
                    && conf.linger == span_of(option_text(linger)),
            },
    {
        let keepalive_text = match keepalive {
            Some(text) => text,
            None => {
                return Err("keepalive not found");
            },
        };
        let keepalive = match parse_u64(keepalive_text) {
            Some(millis) => span(millis),
            None => {
                return Err("keepalive not int");
            },
        };
        let linger_text = match linger {
            Some(text) => text,
            None => {
                return Err("linger not found");
            },
        };
        let linger = match parse_u64(linger_text) {
            Some(millis) => span(millis),
            None => {
                return Err("linger not int");
            },
        };
        Ok(StreamConf { linger, keepalive })
    }
}

} // verus!
