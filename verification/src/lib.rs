//! Streaming of document mutations into a search engine's bulk endpoint:
//! the commands, their wire encoding, the batch encoder, the worker state
//! machine and the pool that feeds it.

pub mod batch;
pub mod channel;
pub mod command;
pub mod handler;
pub mod json;
pub mod receiver;
pub mod request;
pub mod response;
pub mod shared;
pub mod tally;
pub mod wire;
pub mod worker;
