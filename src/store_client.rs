//! The capability trait and its Redis-backed variant.
pub mod interface;
pub mod redis_client;
