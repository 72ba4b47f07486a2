//! Pricing, hedging and request handling of an exchange desk that sells and
//! buys bitcoin and offsets every trade on a derivatives exchange.

pub mod bybit;
pub mod conversion;
pub mod earn_percentage;
pub mod error;
pub mod hedge;
pub mod laws;
pub mod mock;
pub mod number;
pub mod text;
pub mod web;
