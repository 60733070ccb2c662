pub mod app;
pub mod audio;
pub mod config;
pub mod keys;
pub mod laws;
pub mod pulse;
pub mod text;
pub mod view;
