//! Typed failure reporting.  Every failure path of the bridge returns a
//! distinguishable kind so callers can render actionable diagnostics;
//! no error is swallowed or retried inside the core.

use vstd::prelude::*;

verus! {

/// Failure of a discovery scan.
#[derive(Clone, Copy, Debug, PartialEq, Eq, Structural)]
pub enum ScanError {
    /// No Bluetooth adapter exists on the host.
    NoAdapter,
    /// Stopping a scan already in progress failed.
    ScanStopFailed,
    /// Starting the broad discovery scan failed.
    ScanStartFailed,
    /// The advertised properties of an observed peripheral could not be
    /// fetched; one such failure fails the whole scan.
    PropertiesUnavailable,
}

/// Failure of a connection attempt.  The attempt that failed is
/// discarded; a session live before the attempt stays untouched.
#[derive(Clone, Debug, PartialEq)]
pub enum ConnectError {
    /// No Bluetooth adapter exists on the host.
    NoAdapter,
    /// Starting the targeted scan failed.
    ScanStartFailed,
    /// No peripheral with the requested address came into the scan window.
    DeviceNotFound,
    /// The transport could not establish the physical connection.
    ConnectFailed,
    /// GATT service discovery failed on the established connection.
    ServiceDiscoveryFailed,
    /// The peripheral exposes no clipboard service; `available` reports
    /// the service identifiers that were actually discovered.
    ServiceNotFound { available: Vec<u128> },
    /// The clipboard service exposes no clipboard characteristic;
    /// `available` reports the characteristic identifiers present.
    CharacteristicNotFound { available: Vec<u128> },
    /// The characteristic supports notifications but subscribing failed;
    /// connect does not degrade to a write-only session.
    SubscribeFailed,
}

/// Spec-level value of a [`ConnectError`].
pub enum ConnectErrorView {
    NoAdapter,
    ScanStartFailed,
    DeviceNotFound,
    ConnectFailed,
    ServiceDiscoveryFailed,
    ServiceNotFound { available: Seq<u128> },
    CharacteristicNotFound { available: Seq<u128> },
    SubscribeFailed,
}

impl View for ConnectError {
    type V = ConnectErrorView;

    open spec fn view(&self) -> ConnectErrorView {
        match self {
            ConnectError::NoAdapter => ConnectErrorView::NoAdapter,
            ConnectError::ScanStartFailed => ConnectErrorView::ScanStartFailed,
            ConnectError::DeviceNotFound => ConnectErrorView::DeviceNotFound,
            ConnectError::ConnectFailed => ConnectErrorView::ConnectFailed,
            ConnectError::ServiceDiscoveryFailed => ConnectErrorView::ServiceDiscoveryFailed,
            ConnectError::ServiceNotFound { available } => ConnectErrorView::ServiceNotFound {
                available: available@,
            },
            ConnectError::CharacteristicNotFound { available } => {
                ConnectErrorView::CharacteristicNotFound { available: available@ }
            },
            ConnectError::SubscribeFailed => ConnectErrorView::SubscribeFailed,
        }
    }
}

/// Failure of a send over the stored session.
#[derive(Clone, Debug, PartialEq)]
pub enum SendError {
    /// No session is live; nothing was written.
    NotConnected,
    /// The stored peripheral's current service list no longer holds the
    /// clipboard service; `available` reports what it holds instead.
    ServiceNotFound { available: Vec<u128> },
    /// The clipboard service no longer holds the clipboard
    /// characteristic; `available` reports what it holds instead.
    CharacteristicNotFound { available: Vec<u128> },
    /// The transport failed to write the payload.
    WriteFailed,
}

/// Spec-level value of a [`SendError`].
pub enum SendErrorView {
    NotConnected,
    ServiceNotFound { available: Seq<u128> },
    CharacteristicNotFound { available: Seq<u128> },
    WriteFailed,
}

impl View for SendError {
    type V = SendErrorView;

    open spec fn view(&self) -> SendErrorView {
        match self {
            SendError::NotConnected => SendErrorView::NotConnected,
            SendError::ServiceNotFound { available } => SendErrorView::ServiceNotFound {
                available: available@,
            },
            SendError::CharacteristicNotFound { available } => {
                SendErrorView::CharacteristicNotFound { available: available@ }
            },
            SendError::WriteFailed => SendErrorView::WriteFailed,
        }
    }
}

/// Failure of decoding a wire payload.  Decoding never panics and never
/// yields a partially populated message.
#[derive(Clone, Copy, Debug, PartialEq, Eq, Structural)]
pub enum DecodeError {
    /// The buffer is shorter than the fixed framing.
    Truncated,
    /// The buffer's length disagrees with its length prefix.
    LengthMismatch,
    /// The content bytes are not valid UTF-8.
    InvalidText,
}

/// Failure of the advertising controller.
#[derive(Clone, Copy, Debug, PartialEq, Eq, Structural)]
pub enum AdvertiseError {
    /// The host platform has no BLE broadcast role; reported explicitly
    /// rather than silently doing nothing.
    PlatformUnsupported,
}

} // verus!
