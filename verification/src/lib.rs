//! Verified core of the GitHub stars processing server.
pub mod actors;
pub mod admin;
pub mod auth;
pub mod cli;
pub mod clock;
pub mod decimal;
pub mod error;
pub mod github;
pub mod health;
pub mod models;
pub mod pool;
pub mod surreal_client;
pub mod types;
