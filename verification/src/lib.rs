//! Supervision of one local backend process: where its executable is found,
//! how it is launched, how its readiness is confirmed, and how it is stopped.
//!
//! The library decides; the host performs. Every component is a small state
//! machine that names the next outside action (probe a path, list a directory,
//! issue a request, sleep, spawn, kill) and takes the outcome back as an event.

pub mod browser;
pub mod composition;
pub mod error;
pub mod health;
pub mod legacy;
pub mod locator;
pub mod orchestrator;
pub mod paths;
pub mod reach;
pub mod resolution;
pub mod supervisor;
pub mod text;
