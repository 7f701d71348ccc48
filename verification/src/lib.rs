//! Bearer-token authentication for an HTTP API, with every decision verified.

pub mod algorithm;
pub mod api_error;
pub mod auth;
pub mod bearer;
pub mod error;
pub mod jwk;
pub mod middleware;
pub mod outside;
pub mod text;
