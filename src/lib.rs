//! Authentication and session core: an error taxonomy with its HTTP status
//! codes, signed two-tier session tokens, an in-memory user store, a
//! time-boxed password-reset key store, and the register / login / exchange /
//! reset operations that compose them.

pub mod error;
pub mod text;
pub mod token;
pub mod codec;
pub mod user;
pub mod store;
pub mod claims;
pub mod reset;
pub mod credentials;
pub mod service;
pub mod laws;
pub mod chat;
