//! The proposal lifecycle: data model, identity resolution and the engine.

pub mod effects;
pub mod engine;
pub mod identity;
pub mod laws;
pub mod models;
pub mod ports;
pub mod records;
pub mod services;
