pub mod bootstrap;
pub mod config;
pub mod cycle;
pub mod errors;
pub mod json;
pub mod matcher;
pub mod models;
pub mod pattern;
pub mod supervisor;
