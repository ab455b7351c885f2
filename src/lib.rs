//! A two-party escrow: an initializer places value into a custody record
//! bound to a receiver, and the record is settled exactly once, either by
//! releasing the value to the receiver or by returning it to the initializer.
pub mod errors;
pub mod instructions;
pub mod laws;
pub mod state;
pub mod store;
