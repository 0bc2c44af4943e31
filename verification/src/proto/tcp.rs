//! The errors of the TCP transport.

use crate::error::FwError;
use std::io::Error as IoError;
use vstd::prelude::*;
use vstd::std_specs::convert::FromSpecImpl;

verus! {

/// What can go wrong on a TCP stream.
#[derive(Debug)]
pub enum TcpErr {
    Io(IoError),
    Str(String),
}

impl From<IoError> for TcpErr {
    fn from(x: IoError) -> (r: Self) {
        TcpErr::Io(x)
    }
}

impl FromSpecImpl<IoError> for TcpErr {
    open spec fn obeys_from_spec() -> bool {
        true
    }

    open spec fn from_spec(x: IoError) -> Self {
        TcpErr::Io(x)
    }
}

impl From<IoError> for FwError<TcpErr> {
    fn from(x: IoError) -> (r: Self) {
        FwError::Io(TcpErr::Io(x))
    }
}

impl FromSpecImpl<IoError> for FwError<TcpErr> {
    open spec fn obeys_from_spec() -> bool {
        true
    }

    open spec fn from_spec(x: IoError) -> Self {
        FwError::Io(TcpErr::Io(x))
    }
}

} // verus!
