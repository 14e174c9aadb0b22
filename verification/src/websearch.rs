//! The web-search capability: its data types, provider contract, durable
//! wrapper, the provider wire models with their translations, and the
//! paginated sessions.

pub mod brave;
pub mod config;
pub mod durable;
pub mod error;
pub mod google;
pub mod serper;
pub mod tavily;
pub mod types;
