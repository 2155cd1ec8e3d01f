//! A typed accessor layer over an address-keyed audio property system.
//!
//! Audio objects expose attributes through an untyped store keyed by a
//! (selector, scope, element) triple. This crate models that triple as a
//! value type, maps the closed selector and scope taxonomies to their OS
//! numeric codes, marshals typed values into and out of the fixed-size byte
//! buffers the store trades in, and captures the device-level policies
//! (channel discovery, volume and mute handling, output-capability checks,
//! change-notification bookkeeping) as verified functions over plain values.
//! The raw OS calls themselves stay outside: callers hand in the status codes
//! and byte buffers those calls produce and receive typed results back.

pub mod aopa;
pub mod devices;
pub mod error;
pub mod events;
pub mod internals;
pub mod mscope;
pub mod mselector;
