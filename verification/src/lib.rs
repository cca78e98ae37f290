//! Credential and token service with a session gate for a small multi-user
//! task-tracking service: users register and log in, receive a signed,
//! time-limited bearer token, and every later request is admitted only after
//! the session gate has turned that token back into a trusted user identity.

pub mod errors;
pub mod gate;
pub mod laws;
pub mod password;
pub mod service;
pub mod store;
pub mod token;
