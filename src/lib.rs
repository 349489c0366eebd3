//! Command encoding and USB session decisions for the blink(1) RGB indicator.
//!
//! The library encodes commands into the device's eight-byte feature
//! reports, picks the matching devices out of an enumeration, and decides
//! each step of a delivery session and of a broadcast. Performing those steps
//! on a USB stack is left to the caller.
pub mod broadcast;
pub mod color;
pub mod constants;
pub mod discovery;
pub mod message;
pub mod session;
