pub mod build_info;
pub mod config;
pub mod handlers;
pub mod response;
pub mod yaml;
