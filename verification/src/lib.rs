//! OTA-over-BLE transfer protocol core.
//!
//! A firmware image is streamed over a small set of GATT characteristics into
//! an inactive update partition. This crate holds the protocol logic: decoding
//! command bytes, bounding the byte stream against the declared image size,
//! tracking the stream handed to the platform hasher, the session state
//! machine that decides when the image may be committed, and the router that
//! maps characteristic-level events onto the session. The platform
//! collaborators (BLE stack, flash driver, hardware digest) perform the I/O
//! that these decisions call for.

pub mod buffer;
pub mod characteristic;
pub mod commands;
pub mod config;
pub mod errors;
pub mod hash;
pub mod partition;
pub mod router;
pub mod session;
pub mod setup;
pub mod wire;
