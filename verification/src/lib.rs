//! A verified core for an interactive uptime monitor.
//!
//! Operators register URLs; per-target checker loops probe each one on its
//! own schedule and fold the outcomes into a shared registry of monitored
//! domains, while a terminal session lets the operator add, remove and
//! inspect targets.  This crate holds the verified logic of that system:
//! the domain model with its bounded check history, the shared registry,
//! the probe-outcome classification, URL validation, and the session state
//! machine that routes key input.  Terminal rendering, network probes and
//! file persistence live outside, behind small interfaces.

pub mod checker;
pub mod domain;
pub mod editor;
pub mod history;
pub mod keys;
pub mod persist;
pub mod popup;
pub mod registry;
pub mod session;
pub mod shell;
pub mod table;
pub mod validate;
