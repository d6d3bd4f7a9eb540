//! Audio device tooling.

pub mod hotplug;
