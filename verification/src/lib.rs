//! Oscilloscope-style instrument core: wire protocol codec, pin-ownership
//! configuration store, mode state machine, sampling pipeline and the
//! host-side capture logic, with machine-checked contracts.

pub mod codec;
pub mod communications;
pub mod config;
pub mod description;
pub mod device;
pub mod host;
pub mod mutex;
pub mod pinvec;
pub mod sampling;
