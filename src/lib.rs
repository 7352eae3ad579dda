pub mod error;
pub mod platform;
pub mod remote_url;
