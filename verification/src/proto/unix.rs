//! The UNIX-domain transport: its errors, and the address that is dialed.

use crate::error::FwError;
use std::io::Error as IoError;
use vstd::prelude::*;
use vstd::std_specs::convert::FromSpecImpl;

verus! {

/// What can go wrong on a UNIX-domain stream.
#[derive(Debug)]
pub enum UnixErr {
    Io(IoError),
    Str(String),
}

impl From<IoError> for UnixErr {
    fn from(x: IoError) -> (r: Self) {
        UnixErr::Io(x)
    }
}

impl FromSpecImpl<IoError> for UnixErr {
    open spec fn obeys_from_spec() -> bool {
        true
    }

    open spec fn from_spec(x: IoError) -> Self {
        UnixErr::Io(x)
    }
}

impl From<IoError> for FwError<UnixErr> {
    fn from(x: IoError) -> (r: Self) {
        FwError::Io(UnixErr::Io(x))
    }
}

impl FromSpecImpl<IoError> for FwError<UnixErr> {
    open spec fn obeys_from_spec() -> bool {
        true
    }

    open spec fn from_spec(x: IoError) -> Self {
        FwError::Io(UnixErr::Io(x))
    }
}

/// Dials one UNIX-domain socket, by its path, for every pair.
pub struct UnixConnector {
    addr: String,
}

impl UnixConnector {
    /// The path that is dialed.
    pub closed spec fn path(&self) -> Seq<char> {
        self.addr@
    }

    /// A connector that dials the socket at the path `addr`.
    pub fn new(addr: &str) -> (r: Self)
        ensures
            r.path() == addr@,
    {
        UnixConnector { addr: addr.to_owned() }
    }

    /// The connector for the address that the command line gave, or the refusal
    /// where it gave none.
    pub fn parse(addr: Option<&str>) -> (r: Result<UnixConnector, FwError<UnixErr>>)
        ensures
            match addr {
                Some(text) => r matches Ok(c) && c.path() == text@,
                None => r matches Err(FwError::Io(UnixErr::Str(s))) && s@ == "address not found"@,
            },
    {
        match addr {
            Some(text) => Ok(UnixConnector::new(text)),
            None => Err(FwError::Io(UnixErr::Str("address not found".to_owned()))),
        }
    }

    /// The path that is dialed.
    pub fn addr(&self) -> (r: &str)
        ensures
            r@ == self.path(),
    {
        self.addr.as_str()
    }
}

} // verus!
