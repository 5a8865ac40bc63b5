//! A small order-management library: a product catalog entry, a validated
//! user record, an inventory of stock counts, and an order that aggregates
//! line items under a status state machine with a running total.
//!
//! Prices and totals are held in integer minor units (cents), so the running
//! total is maintained exactly.

pub mod inventory;
pub mod numfmt;
pub mod order;
pub mod product;
pub mod text;
pub mod user;
