//! Verified core of a small e-commerce backend: pricing and discounts,
//! catalogue pagination, carts and checkout, and a generic table editor.

pub mod error;
pub mod pricing;
pub mod text;
pub mod ids;
pub mod schema;
pub mod sql;
pub mod catalog;
pub mod cart;
pub mod orders;
pub mod tables;
pub mod seed;
pub mod config;
pub mod web;
