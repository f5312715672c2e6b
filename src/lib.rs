pub mod paths;
pub mod errors;
pub mod naming;
pub mod models;
pub mod handler;
pub mod laws;
