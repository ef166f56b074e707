//! Stock ledger: per-product quantities with an append-only movement history.

pub mod error;
pub mod handlers;
pub mod laws;
pub mod ledger;
pub mod models;
pub mod movement;
pub mod reply;
pub mod state;
pub mod text;
