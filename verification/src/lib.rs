//! Per-cycle decision engine for a colony of autonomous worker agents.
//!
//! Every cycle the engine decides whether production facilities should
//! create new agents, which goal each idle agent should pursue, and how to
//! drive each busy agent one step toward its current goal.  Goal
//! assignments survive from one cycle to the next in a [`store::TargetStore`];
//! everything else is recomputed each cycle from plain snapshots of the
//! environment.  The host driver owns all environment I/O: it builds the
//! snapshots, issues the commands this library decides on, and feeds the
//! environment's replies back in.

pub mod cycle;
pub mod engine;
pub mod goal;
pub mod laws;
pub mod policy;
pub mod production;
pub mod store;
