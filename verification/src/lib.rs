//! Core model of a terminal chess viewer: the board and its pieces, the
//! per-kind move geometry, and the turn/history bookkeeping around them.
//!
//! Move generation here is purely geometric reachability: it ignores board
//! occupancy, blocking pieces, check, and every other legality rule. Those
//! belong to a separate legality layer that this crate deliberately does not
//! provide.

pub mod app;
pub mod game;
pub mod pieces;
