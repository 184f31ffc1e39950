//! The operations offered to callers.

pub mod bet2chess_service;
pub mod query_service;
pub mod signless_service;
