//! Authentication core of a small ticketing backend: validated value types,
//! password hashing, session claims, signed tokens and the login decisions.

pub mod clock;
pub mod config;
pub mod controller;
pub mod decimal;
pub mod domain;
pub mod handlers;
pub mod ident;
pub mod text;

pub use config::Cfg;
pub use controller::Controller;
