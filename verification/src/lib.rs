//! Scheduling, trend-detection and resilient-broadcast engine for a chat
//! notification bot.
//!
//! The library models prices and percentages as integers in micro-units
//! (one millionth of a dollar, or of a percent), so that every decision the
//! engine takes is stated and proved over exact integer arithmetic.

pub mod broadcast;
pub mod cache;
pub mod config;
pub mod decimal;
pub mod errors;
pub mod fetch;
pub mod messages;
pub mod queries;
pub mod retry;
pub mod schedule;
pub mod store;
pub mod toads;
pub mod trend;
