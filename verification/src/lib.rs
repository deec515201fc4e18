//! A minimal entity-component execution core: a component store of named
//! entities, an interval timer with one-shot and repeating modes, an ordered
//! two-phase scheduler, and an application driver that advances time and runs
//! the registered routines each tick.

pub mod driver;
pub mod plugin;
pub mod schedule;
pub mod store;
pub mod timer;
