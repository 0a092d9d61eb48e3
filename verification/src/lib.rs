//! A lightweight host-metrics collection engine.
//!
//! The crate models a scrape-driven metrics exporter: a set of metric
//! producers turns raw operating-system counter readings into named,
//! labeled series held in a [`registry::Registry`].  All raw readings are
//! handed in by the caller as plain values; the engine itself performs no
//! I/O.  The numeric core — snapshot diffing with a clamp-to-zero
//! counter-reset policy, tick-ratio CPU usage, one-hot service states —
//! is fully specified and verified.

pub mod args;
pub mod collector;
pub mod config;
pub mod cpu;
pub mod fs;
pub mod info;
pub mod memory;
pub mod mounts;
pub mod net;
pub mod pressure;
pub mod producer;
pub mod delta;
pub mod disk;
pub mod registry;
pub mod strutil;
pub mod systemd_unit_state;
