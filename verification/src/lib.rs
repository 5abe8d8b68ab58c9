pub mod config;
pub mod error;
pub mod feed;
pub mod install;
pub mod json;
pub mod platform;
pub mod progress;
pub mod request;
pub mod text;
pub mod trace;
pub mod updater;
pub mod version_store;
