//! A client for Stripe's API: the requests that it makes, and what it makes
//! of the answers.

pub mod balance;
pub mod balance_transaction;
pub mod client;
pub mod dispute;
pub mod error;
pub mod helper;
pub mod json;
pub mod mandate;
pub mod operation;
pub mod payment_intent;
pub mod payout;
pub mod refund;
pub mod resource;
pub mod text;

pub use client::Client;
