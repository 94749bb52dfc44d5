pub mod api;
pub mod cycle;
pub mod models;
pub mod utils;
