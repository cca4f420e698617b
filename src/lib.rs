pub mod types;
pub mod logical;
pub mod delegate;
pub mod cache;
pub mod setup;
