//! The decision logic of a small multi-user calculator service: what a
//! connected client sees, which requests the service makes of its user
//! store, and how passwords are hashed and checked.

pub mod auth;
pub mod menu;
pub mod password;
pub mod session;
pub mod text;
pub mod usage;
