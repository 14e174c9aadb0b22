//! The vector-store capability: its data types, provider contract, and
//! durable wrapper.

pub mod durable;
pub mod error;
pub mod types;
