//! Verified core of a Tauri plugin that drives Apple's on-device text and
//! image models through a native bridge: request bookkeeping, outcome and
//! error mapping, request shaping and error messages.

pub mod decimal;
pub mod error;
pub mod json;
pub mod cstring;
pub mod session;
pub mod bridge;
pub mod image;
pub mod ephemeral;
pub mod registry;
