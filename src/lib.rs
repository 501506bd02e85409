pub mod backend;
pub mod error;
pub mod file;
pub mod handle;
pub mod output;
pub mod platform;
pub mod provider;
pub mod service;
pub mod text;
