//! Identity and session core of a ticketing service: roles, credentials,
//! one-time verification codes, wallet signatures and signup decisions.

pub mod error;
pub mod text;
pub mod codec;
pub mod password;
pub mod keys;
pub mod roles;
pub mod session;
pub mod signup;
pub mod config;
pub mod models;
pub mod validation;
pub mod reservation;
pub mod api;
