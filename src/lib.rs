pub mod api;
pub mod cli;
pub mod errors;
pub mod gateway;
pub mod models;
pub mod orchestrator;
pub mod rate_limit;
