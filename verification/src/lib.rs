//! The decisions of a trading bot for Rise/Fall contracts.
//!
//! The bot trades on a demo account until four trades in a row have the same
//! outcome, and then places a bet on a real account. Everything that it
//! decides is here; the sockets, the clock and the floating-point arithmetic
//! are left to the program around it, which performs what the bot asks for
//! and tells it what happened.

pub mod bot;
pub mod client;
pub mod demo;
pub mod failure;
pub mod json;
pub mod listen;
pub mod price;
pub mod request;
pub mod response;
pub mod trade;
pub mod wait;
