//! The errors of endpoints, of pairs and of configurations.

use std::fmt::Debug;
use std::io::Error as IoError;
use vstd::prelude::*;
use vstd::std_specs::convert::FromSpecImpl;

verus! {

/// The error type of `std::io`, carried through as an opaque value.
#[verifier::external_type_specification]
#[verifier::external_body]
pub struct ExIoError(std::io::Error);

/// Why a configuration could not be built.
#[derive(Debug)]
pub enum FwConfError {
    Io(IoError),
    Str(String),
}

/// What went wrong on one endpoint of a pair.
#[derive(Debug)]
pub enum FwError<E: Debug> {
    /// The transport failed.
    Io(E),
    /// The notifier refused a registration or a deregistration.
    Register(IoError),
    /// The peer closed the stream, or the transport takes no more bytes.
    Disconnected,
    /// The endpoint is gone.
    Lost,
    /// The endpoint reported a count that cannot be true, which is carried here.
    Custom(usize),
}

/// What went wrong on a pair: on its listener side `L`, on its connector side `S`,
/// or on the pair as a whole.
#[derive(Debug)]
pub enum FwPairError<Le: Debug, Se: Debug> {
    L(FwError<Le>),
    S(FwError<Se>),
    /// A peer closed its stream.
    Disconnected,
    /// No pair is known under the identifier, or no identifier is left for a pair.
    Lost,
}

/// The error of a result, if it is one.
pub open spec fn failure_of<T, E>(r: Result<T, E>) -> Option<E> {
    match r {
        Ok(_) => None,
        Err(e) => Some(e),
    }
}

impl FwConfError {
    /// The error that carries `x` as its message.
    pub fn text(x: &str) -> (r: FwConfError)
        ensures
            r matches FwConfError::Str(s) && s@ == x@,
    {
        FwConfError::Str(x.to_owned())
    }
}

impl<E: Debug> From<E> for FwError<E> {
    fn from(x: E) -> (r: Self) {
        FwError::Io(x)
    }
}

impl<E: Debug> FromSpecImpl<E> for FwError<E> {
    open spec fn obeys_from_spec() -> bool {
        true
    }

    open spec fn from_spec(x: E) -> Self {
        FwError::Io(x)
    }
}

impl<Le: Debug, Se: Debug> FwPairError<Le, Se> {
    /// The same error with the two sides exchanged.
    pub open spec fn swapped(self) -> FwPairError<Se, Le> {
        match self {
            FwPairError::L(x) => FwPairError::S(x),
            FwPairError::S(x) => FwPairError::L(x),
            FwPairError::Disconnected => FwPairError::Disconnected,
            FwPairError::Lost => FwPairError::Lost,
        }
    }

    /// An error of the listener side.
    pub fn ml(x: FwError<Le>) -> (r: Self)
        ensures
            r == FwPairError::<Le, Se>::L(x),
    {
        FwPairError::L(x)
    }

    /// A transport failure of the listener side.
    pub fn l(x: Le) -> (r: Self)
        ensures
            r == FwPairError::<Le, Se>::L(FwError::Io(x)),
    {
        FwPairError::L(FwError::Io(x))
    }

    /// An error of the connector side.
    pub fn ms(x: FwError<Se>) -> (r: Self)
        ensures
            r == FwPairError::<Le, Se>::S(x),
    {
        FwPairError::S(x)
    }

    /// A transport failure of the connector side.
    pub fn s(x: Se) -> (r: Self)
        ensures
            r == FwPairError::<Le, Se>::S(FwError::Io(x)),
    {
        FwPairError::S(FwError::Io(x))
    }

    /// Exchanges the two sides, so that one relay routine serves both directions.
    pub fn swap(self) -> (r: FwPairError<Se, Le>)
        ensures
            r == self.swapped(),
    {
        match self {
            FwPairError::L(x) => FwPairError::S(x),
            FwPairError::S(x) => FwPairError::L(x),
            FwPairError::Disconnected => FwPairError::Disconnected,
            FwPairError::Lost => FwPairError::Lost,
        }
    }

    /// Exchanging the sides twice gives the error back.
    pub proof fn lemma_swap_involution(self)
        ensures
            self.swapped().swapped() == self,
    {
    }
}

} // verus!
