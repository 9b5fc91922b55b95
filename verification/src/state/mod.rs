pub mod config;

pub use config::Config;
