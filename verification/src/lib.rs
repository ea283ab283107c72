pub mod auth;
pub mod cfgdoc;
pub mod common;
pub mod config;
pub mod connect;
pub mod error;
pub mod json;
pub mod logger;
pub mod logship_client;
pub mod strutil;
pub mod timeutil;
pub mod upload;
