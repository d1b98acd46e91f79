//! Backlight brightness control over a sysfs-style device hierarchy.
//!
//! The library holds the rules: how a brightness file is read and written as
//! text, how a level changes, and how a command line selects one operation.
//! Reading and writing the files themselves is left to the caller.

pub mod brightness;
pub mod decimal;
pub mod device;
pub mod error;
pub mod plan;
pub mod request;
pub mod text;
