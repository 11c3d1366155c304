//! A verified core for a small command-line helper that drives an external
//! Jira client: it checks that the tool is present and authenticated, creates
//! a ticket, extracts the new ticket's key from the tool's output, and asks
//! for a status transition.
//!
//! The crate holds the decision logic only. Spawning the external tool,
//! printing, and argument parsing are left to a thin binary around it, which
//! feeds captured process outputs back into the state machine in [`flow`].

pub mod extract;
pub mod flow;
pub mod gateway;
pub mod text;
