//! Typed access to PEAK CAN interfaces: frames, bit timing, channel handles and the
//! driver's status codes.
pub mod frame;
pub mod timing;
pub mod error;
pub mod bus;
pub mod socket;
pub mod param;
pub mod df;
pub mod hw;
pub mod info;
pub mod io;
pub mod special;
pub mod trace;
