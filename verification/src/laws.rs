//! What the operations of the desk promise.
//!
//! Each law speaks of calls: of what goes in, of what comes out, and of how the
//! results of several calls belong together.

pub mod bybit;
pub mod conversion;
pub mod error;
pub mod hedge;
pub mod number;
pub mod text;
pub mod web;
