//! Register-access layer for the Texas Instruments BQ25773 battery charger.
//!
//! The charger is reached over a two-wire bus on which a multi-byte payload
//! is written as one contiguous block that starts at the given register
//! address. Its registers are one or two bytes wide, so a write that carries
//! a single byte too many lands in the register that follows. This crate
//! computes, for each register operation, exactly the bytes that go on the
//! bus, and Verus proves that it does.
//!
//! * [`register`] says how many bytes a register of a declared width holds.
//! * [`frame`] builds the byte frames and rejects payloads that do not fit
//!   the declared register width.
//! * [`session`] turns a register operation into the bus transactions that
//!   carry it out and folds the transport's answers into the driver's result.
//! * [`error`] holds the driver's error type.
//!
//! Nothing here touches a bus. A transport adapter performs each
//! [`session::BusAction`] and hands the outcome back.

pub mod error;
pub mod frame;
pub mod register;
pub mod session;

pub use crate::error::BQ25773Error;
