pub mod codec;
pub mod database;
pub mod endpoints;
pub mod executor;
pub mod store;
pub mod types;
