//! A small cooperative async runtime for a single-threaded fiber engine:
//! the decisions of its scheduler loop, deadlines on tasks, an async mutex,
//! a bounded multi-producer multi-consumer channel and a non-blocking TCP
//! stream, each with its contract.
//!
//! Nothing here blocks or calls the operating system. Operations that
//! would wait say so in their result, and the caller waits on the
//! coordination primitive or on the reactor and calls again; operations
//! that involve a socket call take what the call returned.

pub mod channel;
pub mod context;
pub mod coord;
pub mod helper;
pub mod index;
pub mod mutex;
pub mod tcp;
pub mod time;
pub mod timeout;
