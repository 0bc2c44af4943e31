//! A byte-stream forwarder: every connection that a listener accepts is paired with
//! one that a connector dials, and bytes are moved between the two until one side
//! closes or fails.
//!
//! The engine, [`Fw`], is driven by readiness events: the caller waits on the
//! notifier and hands each batch of tokens to [`Fw::turn`]. What the engine does
//! with an event is stated twice. The modules `model` and `table` hold the rules
//! of pairs and of the table, over plain values, with what follows from them. The
//! contracts of `chan`, `relay`, `pair` and `fw` say which calls are made on the
//! listener, the connector, the channels and the notifier, in which order and with
//! what, and that these calls keep to the rules.

pub mod chan;
pub mod conf;
pub mod error;
pub mod fw;
pub mod model;
pub mod num;
pub mod pair;
pub mod proto;
pub mod relay;
pub mod table;
pub mod token;

pub use crate::chan::{Chan, Connector, Listener, MidChan, NextState, Pollable, State};
pub use crate::conf::FwConf;
pub use crate::error::{FwConfError, FwError, FwPairError};
pub use crate::fw::Fw;
