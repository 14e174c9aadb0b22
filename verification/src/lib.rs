//! A durable-call interception layer: typed parameter tuples, a structured
//! value codec, and a replay-capable durability engine, together with the
//! capability adapters that route remote operations through it.

pub mod codec;
pub mod durability;
pub mod llm;
pub mod logging;
pub mod params;
pub mod text;
pub mod value;
pub mod vector;
pub mod websearch;
