//! Which attached USB devices are hardware keys, and how they are shown.
use vstd::prelude::*;
use crate::models::YubiKey;

verus! {

/// The USB vendor identifier of the hardware-key family.
pub const YUBICO_VENDOR_ID: u16 = 0x1050;

/// Whether a device of this vendor is a hardware key.
pub fn is_yubikey_vendor(vendor_id: u16) -> (r: bool)
    ensures
        r == (vendor_id == YUBICO_VENDOR_ID),
{
    vendor_id == YUBICO_VENDOR_ID
}

/// The label of a key whose product string cannot be read.
pub open spec fn fallback_label() -> Seq<char> {
    "YubiKey"@
}

impl YubiKey {
    /// A key at bus address `address`, named by its product string, or by
    /// the fallback label when that could not be read.
    pub fn from_device(address: u8, product: Option<String>) -> (r: YubiKey)
        ensures
            r.usb_port == address as i32,
            r.name@ == (match product {
                Some(p) => p@,
                None => fallback_label(),
            }),
    {
        let name = match product {
            Some(p) => p,
            None => String::from_str("YubiKey"),
        };
        YubiKey { name, usb_port: address as i32 }
    }
}

} // verus!
