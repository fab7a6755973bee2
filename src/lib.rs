//! A multi-user task list: registration and sign-in, signed session tokens,
//! and an ownership-enforcing in-memory store behind one lock.

pub mod errors;
pub mod user;
pub mod todo;
pub mod token;
pub mod vault;
pub mod gate;
pub mod state;
pub mod handlers;
pub mod laws;
