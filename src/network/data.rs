//! A plain data message.

use vstd::prelude::*;

use crate::traits::CommandTrait;

verus! {

/// A message that carries data to a device.
#[derive(Clone, Copy, Debug)]
pub struct DataMessage {}

impl CommandTrait for DataMessage {
    open spec fn spec_packet_type() -> u16 {
        0x006A
    }

    fn packet_type() -> (r: u16) {
        0x006A
    }
}

} // verus!
