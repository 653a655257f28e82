//! A single process-wide two-valued flag, gated by an administrator password.
//!
//! The library holds the flag's store, the password and login decisions, and
//! the replies that each endpoint renders. Serving HTTP, reading the
//! environment and keeping cookies are left to the program around it.
pub mod state;
pub mod store;
pub mod password;
pub mod reply;
pub mod service;
