//! A verified core for replaying the event stream of a simulated sport.
//!
//! The crate re-derives, tick for tick, the deterministic event generation
//! of an external game simulation, so that a locally run model reproduces
//! the recorded stream draw for draw:
//!
//! - [`rng`] — the bit-exact generator: a two-word xorshift recurrence,
//!   batched and consumed in reverse generation order;
//! - [`roster`] — teams, players, modifier tags, and the read-only world;
//! - [`events`] — the output-event model and its content equality;
//! - [`errors`] — the error taxonomy, every kind surfaced to the caller;
//! - [`pitch`] — the pitch-resolution formulas, computed exactly in
//!   fixed point;
//! - [`game`] — one game's phase state machine, specified whole by
//!   [`game::spec_tick`];
//! - [`laws`] — proved laws of the machine: counter discipline and
//!   phase order;
//! - [`sim`] — the orchestrator that feeds recorded events to the
//!   machines and surfaces any divergence.
//!
//! Quantities the external system handles as doubles in [0,1) live here as
//! fixed-point numbers with 52 fractional bits — exactly the resolution of
//! the generator's draws — so every threshold comparison is exact and no
//! floating point is needed anywhere in the verified core.

pub mod errors;
pub mod events;
pub mod game;
pub mod laws;
pub mod pitch;
pub mod rng;
pub mod roster;
pub mod sim;
