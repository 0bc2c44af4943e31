//! The sizes that an engine is made with, and how they are read from text.

use crate::error::FwConfError;
use crate::num::{decimal, option_text, parse_usize};
use vstd::prelude::*;

verus! {

/// The sizes that an engine is made with.
pub struct FwConf {
    capacity: usize,
    event_buffer_size: usize,
    client_buffer_size: usize,
}

/// Whether an option is there and writes a `usize`.
pub open spec fn is_size(value: Option<Seq<u8>>) -> bool {
    value is Some && decimal(value->Some_0, usize::MAX as nat) is Some
}

/// The `usize` that an option writes.
pub open spec fn size_of(value: Option<Seq<u8>>) -> usize {
    decimal(value->Some_0, usize::MAX as nat)->Some_0 as usize
}

/// The name of the first option that keeps a configuration from being built, if
/// there is one. An option that is missing counts before one that is no number,
/// and among the options of either kind the event buffer comes first, then the
/// client buffer, then the capacity.
pub open spec fn conf_fault(
    event_buffer_size: Option<Seq<u8>>,
    client_buffer_size: Option<Seq<u8>>,
    capacity: Option<Seq<u8>>,
) -> Option<Seq<char>> {
    if event_buffer_size is None {
        Some("event_buffer_size"@)
    } else if client_buffer_size is None {
        Some("client_buffer_size"@)
    } else if capacity is None {
        Some("capacity"@)
    } else if !is_size(event_buffer_size) {
        Some("event_buffer_size"@)
    } else if !is_size(client_buffer_size) {
        Some("client_buffer_size"@)
    } else if !is_size(capacity) {
        Some("capacity"@)
    } else {
        None
    }
}

impl FwConf {
    /// The room that the table of pairs starts with.
    pub closed spec fn spec_capacity(&self) -> usize {
        self.capacity
    }

    /// How many events one poll may hand over.
    pub closed spec fn spec_event_buffer_size(&self) -> usize {
        self.event_buffer_size
    }

    /// The size of each pair's relay buffer, in bytes.
    pub closed spec fn spec_client_buffer_size(&self) -> usize {
        self.client_buffer_size
    }

    /// A configuration of the three sizes.
    pub fn new(capacity: usize, event_buffer_size: usize, client_buffer_size: usize) -> (r: Self)
        ensures
            r.spec_capacity() == capacity,
            r.spec_event_buffer_size() == event_buffer_size,
            r.spec_client_buffer_size() == client_buffer_size,
    {
        FwConf { capacity, event_buffer_size, client_buffer_size }
    }

    #[verifier::when_used_as_spec(spec_capacity)]
    pub fn capacity(&self) -> (r: usize)
        ensures
            r == self.spec_capacity(),
    {
        self.capacity
    }

    #[verifier::when_used_as_spec(spec_event_buffer_size)]
    pub fn event_buffer_size(&self) -> (r: usize)
        ensures
            r == self.spec_event_buffer_size(),
    {
        self.event_buffer_size
    }

    #[verifier::when_used_as_spec(spec_client_buffer_size)]
    pub fn client_buffer_size(&self) -> (r: usize)
        ensures
            r == self.spec_client_buffer_size(),
    {
        self.client_buffer_size
    }

    /// Builds the configuration from the texts of the three options, each as the
    /// command line gave it or `None` where it gave none. The error names the
    /// option at fault.
    pub fn parse(
        event_buffer_size: Option<&str>,
        client_buffer_size: Option<&str>,
        capacity: Option<&str>,
    ) -> (r: Result<FwConf, FwConfError>)
        ensures
            match conf_fault(
                option_text(event_buffer_size),
                option_text(client_buffer_size),
                option_text(capacity),
            ) {
                Some(name) => r matches Err(FwConfError::Str(s)) && s@ == name,
                None => r matches Ok(conf) && conf.spec_event_buffer_size() == size_of(
                    option_text(event_buffer_size),
                ) && conf.spec_client_buffer_size() == size_of(option_text(client_buffer_size))
                    && conf.spec_capacity() == size_of(option_text(capacity)),
            },
    {
        let event_text = match event_buffer_size {
            Some(text) => text,
            None => {
                return Err(FwConfError::text("event_buffer_size"));
            },
        };
        let client_text = match client_buffer_size {
            Some(text) => text,
            None => {
                return Err(FwConfError::text("client_buffer_size"));
            },
        };
        let capacity_text = match capacity {
            Some(text) => text,
            None => {
                return Err(FwConfError::text("capacity"));
            },
        };
        let event_buffer_size = match parse_usize(event_text) {
            Some(n) => n,
            None => {
                return Err(FwConfError::text("event_buffer_size"));
            },
        };
        let client_buffer_size = match parse_usize(client_text) {
            Some(n) => n,
            None => {
                return Err(FwConfError::text("client_buffer_size"));
            },
        };
        let capacity = match parse_usize(capacity_text) {
            Some(n) => n,
            None => {
                return Err(FwConfError::text("capacity"));
            },
        };
        Ok(FwConf { capacity, event_buffer_size, client_buffer_size })
    }
}

} // verus!
