pub mod auth;
pub mod config;
pub mod errors;
pub mod middleware;
pub mod models;
pub mod response;
pub mod services;
pub mod token;
