//! Request-handling logic of the Nysa device web server: content types,
//! path and credential validation, authentication, the stored WiFi
//! configuration, the decisions behind each HTTP route, the filesystem
//! update stream and the server start-up retries.

pub mod json;
pub mod ota;
pub mod startup;
pub mod status;
pub mod storage;
pub mod text;
pub mod utils;
pub mod web;

pub use crate::ota::OtaHandler;
pub use crate::storage::WifiConfig;
pub use crate::utils::{
    constant_time_eq, get_content_type, sanitize_error_message, sanitize_path,
    validate_wifi_credentials,
};
