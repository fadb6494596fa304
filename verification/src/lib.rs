//! Start-up and fault-trap layer of a microcontroller application: the
//! take-once broker for the two peripheral bundles, the start-up sequence, and
//! the protocol of the terminal fault handler.

pub mod broker;
pub mod decimal;
pub mod fault;
pub mod hardware;
pub mod startup;

pub use crate::startup::init;
