//! Around the engine: the stores that hold pending proposals, and what each
//! platform adapter decides before it talks to its platform.

pub mod discord;
pub mod memory;
pub mod stoat;
pub mod store;
