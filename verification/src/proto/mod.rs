pub mod common;
pub mod tcp;
pub mod unix;
