//! A verified engine for an on-chain blind-box ("gachapon") game and its
//! companion marketplace.
//!
//! The library models the draw and supply-accounting rules as plain data:
//! a probability table of weighted, limited-supply prizes attached to a
//! [`game::Game`], a deterministic draw resolver mapping a 32-byte random
//! value to a prize outcome, and the play-session lifecycle from payment
//! through resolution and claim. Token transfers and collectible minting are
//! external collaborators: callers perform them after the verified guards
//! here have accepted the operation.

pub mod draw;
pub mod game;
pub mod ids;
pub mod laws;
pub mod marketplace;
pub mod session;
