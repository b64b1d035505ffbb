//! Simulation core of a small arcade baseball game: a pitcher and a batter
//! driven by a phase machine, a timed power gauge, per-frame input decay and
//! a queue of draw commands produced once per tick.

pub mod input;
pub mod clips;
pub mod components;
pub mod gauge;
pub mod systems;
pub mod ecs;
