//! Verified core of the bookstore vendor service: order status lifecycle,
//! access decisions, pagination and the mapping of errors to responses.

pub mod text;
pub mod status;
pub mod error;
pub mod auth;
pub mod orders;
pub mod applications;
pub mod inventory;
pub mod stats;
