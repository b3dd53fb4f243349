//! A characteristic as the firmware tracks it: its identity and, once the
//! stack has assigned one, its attribute handle. The value bytes themselves
//! live in the stack's attribute table and are fetched by the handle.

use vstd::prelude::*;

verus! {

/// One characteristic's identity and attribute handle.
#[derive(Clone, Copy, Debug, PartialEq, Eq, Structural)]
pub struct OtaCharacteristic {
    /// The 128-bit identity the characteristic was registered under.
    pub uuid: u128,
    /// The handle the stack assigned, once known.
    pub attribute_handle: Option<u16>,
}

impl OtaCharacteristic {
    /// A characteristic that is not yet in the attribute table.
    pub fn new(uuid: u128) -> (c: OtaCharacteristic)
        ensures
            c.uuid == uuid,
            c.attribute_handle is None,
    {
        OtaCharacteristic { uuid, attribute_handle: None }
    }

    /// Records the handle the stack assigned.
    pub fn set_attribute_handle(&mut self, handle: u16)
        ensures
            final(self).uuid == old(self).uuid,
            final(self).attribute_handle == Some(handle),
    {
        self.attribute_handle = Some(handle);
    }

    /// Whether the stack has assigned a handle yet.
    pub fn is_initialized(&self) -> (r: bool)
        ensures
            r == (self.attribute_handle is Some),
    {
        self.attribute_handle.is_some()
    }
}

} // verus!
