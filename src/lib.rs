//! Analysis core of a small RPC framework: from the description of a service's methods it
//! derives the request envelope, one response contract shared by every method, and the
//! routing rules of the generated router; beside it stand the table that pairs
//! asynchronous replies with their callers and the state of a pollable lock.

pub mod receiver_type;
pub mod result_data;
pub mod conversion;
pub mod method_data;
pub mod response_data;
pub mod generator;
pub mod dispatcher;
pub mod lock_state;
pub mod example;
