pub mod clean;
pub mod error;
pub mod event;
pub mod game;
pub mod service;
pub mod service_error;
pub mod types;
