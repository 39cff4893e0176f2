use vstd::prelude::*;

use crate::device_info::DeviceInfo;

verus! {

/// Access to the core information of a device.
pub trait DeviceTrait {
    /// The core information about the device.
    spec fn spec_info(&self) -> DeviceInfo;

    /// Get the core information about a device.
    fn get_info(&self) -> (r: DeviceInfo)
        ensures
            r == self.spec_info(),
    ;

    /// Save the authentication information of a session.
    fn save_auth_pair(&mut self, id: u32, key: [u8; 16])
        ensures
            final(self).spec_info() == (DeviceInfo { auth_id: id, key: key, ..old(self).spec_info() }),
    ;
}

} // verus!
