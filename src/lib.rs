//! Networked entity-action synchronization core: a fixed-tick frame clock,
//! a handle/identifier registry, serializable mob actions, projectiles with
//! post-death energy decay, and per-connection replication bookkeeping.
pub mod clock;
pub mod math;
pub mod registry;
pub mod action;
pub mod components;
pub mod missile;
pub mod connection;
pub mod replication;
pub mod systems;
