//! A registration and dispatch bridge for reset controller drivers.
//!
//! A driver implements [`reset::ResetDriverOps`]; a [`reset::ResetRegistration`] hands
//! the driver's private data and a sparse callback table to a reset host, which later
//! calls back through the table's trampolines.

pub mod error;
pub mod foreign;
pub mod host;
pub mod reset;
