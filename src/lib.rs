//! A small key-value store client layer: a capability trait, an in-memory
//! variant, a Redis-backed variant and a facade generic over the trait.
pub mod data_store_client;
pub mod errors;
pub mod mock_client;
pub mod store_client;
