//! Verified core of the math-circle board service.
pub mod text;
pub mod dates;
pub mod hashing;
pub mod images;
pub mod clock;
pub mod failure;
pub mod auth;
pub mod requests;
pub mod service;
pub mod json;
pub mod export;
