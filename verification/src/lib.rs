//! A deployment pipeline for a declarative system configuration: synchronize
//! a configuration repository, optionally refresh pinned dependency inputs,
//! build a named configuration target, and apply it locally or on a remote
//! host.
//!
//! The library decides; it never spawns a process itself. Each step of the
//! pipeline is described as an [`command::Invocation`] (a program name, its
//! arguments, and an output-suppression flag), and the caller reports back a
//! [`pipeline::StepOutcome`]. The [`pipeline::Pipeline`] state machine owns
//! the ordering of the steps, the resolution of the effective target name,
//! and the decision to stop on the first failure.

pub mod command;
pub mod numeral;
pub mod pipeline;
pub mod remote;
