//! The fixed GATT identifiers by which the two sides of the bridge
//! recognize each other.  These are part of the wire contract and must
//! match bit for bit between advertiser and scanner.

use vstd::prelude::*;

verus! {

/// 128-bit identifier of the clipboard GATT service
/// (canonical text form `12345678-1234-1234-1234-1234567890AB`).
pub const CLIPBOARD_SERVICE_UUID: u128 = 0x12345678_1234_1234_1234_1234567890AB;

/// 128-bit identifier of the clipboard characteristic within that service
/// (canonical text form `87654321-4321-4321-4321-BA0987654321`).
pub const CLIPBOARD_CHARACTERISTIC_UUID: u128 = 0x87654321_4321_4321_4321_BA0987654321;

} // verus!
