//! Change-notification bridging: how a native property listener becomes one
//! stored, replaceable user callback.

pub mod output_changed;
