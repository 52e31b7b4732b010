//! Deterministic fixed-point core of a small 2D space-arcade simulation.
//!
//! Bodies (stars, planets, ships, missiles, explosions) move under pairwise
//! Newtonian attraction, ships self-propel, missiles have a finite lifespan
//! and detonate on proximity to planets or enemy ships, and detonations
//! queue explosion spawns. All state is held in integer milli-units so that
//! every tick is exact and reproducible; rendering, input polling and the
//! windowing loop live outside this crate and exchange plain values with it.

pub mod bundles;
pub mod combat;
pub mod components;
pub mod events;
pub mod gateway;
pub mod laws;
pub mod lifecycle;
pub mod math;
pub mod objects;
pub mod physics;
pub mod tick;
pub mod world;
