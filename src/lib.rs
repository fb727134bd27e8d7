//! Escrow-based marketplace settlement: a seller locks a unique asset in
//! custody at a price, and a buyer swaps funds for it in one atomic step,
//! with a flat percentage fee routed to a treasury.
pub mod address;
pub mod engine;
pub mod fee;
pub mod laws;
pub mod state;
