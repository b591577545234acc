//! A cross-device clipboard bridge over Bluetooth Low Energy.
//!
//! One side advertises a clipboard GATT service; the other discovers it,
//! connects, subscribes to change notifications, and exchanges clipboard
//! text payloads.  The session lifecycle — discovery filtered by the
//! well-known service identifier, connection establishment, GATT
//! resolution, notification subscription, and a single-active-connection
//! model with typed failure reporting — is verified here.  The radio,
//! clock and host-clipboard calls themselves are performed by a thin
//! unverified shell that feeds their outcomes back into these state
//! machines as plain values.

pub mod advertising;
pub mod clipboard;
pub mod codec;
pub mod errors;
pub mod gatt;
pub mod ids;
pub mod scan;
pub mod session;
