//! Verified model of the musl/Linux ABI: which architecture variant a target
//! selects, how C lays out records on it, the constant tables, and byte-level
//! projections of the signal-information union.
pub mod bytes;
pub mod consts;
pub mod ctypes;
pub mod layout;
pub mod records;
pub mod siginfo;
pub mod target;
