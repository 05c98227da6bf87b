//! A verified authentication core: salted password hashing, signed
//! time-bounded session tokens, and the bearer-token gate that admits or
//! rejects requests to protected routes.

pub mod flow;
pub mod gate;
pub mod hasher;
pub mod models;
pub mod token;
