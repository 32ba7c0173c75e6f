//! Server-side night-resolution engine for a social-deduction party game.
//!
//! Players secretly hold roles with asymmetric night abilities.  Each night,
//! every living player's committed selection is converted into visits, and the
//! visits are resolved simultaneously in a fixed priority order: redirection,
//! blocking, protection, kills, investigations and conversions all see the
//! effects of the stages before them.  Deaths are materialized as graves when
//! the following morning begins.

pub mod actions;
pub mod chat;
pub mod components;
pub mod controllers;
pub mod game;
pub mod grave;
pub mod kira;
pub mod laws;
pub mod outside;
pub mod phase;
pub mod player;
pub mod power;
pub mod priority;
pub mod role;
pub mod role_state;
pub mod settings;
pub mod tag;
pub mod visit;

use vstd::prelude::*;

verus! {

} // verus!
