use vstd::prelude::*;

verus! {

/// A message that can be wrapped in a command.
pub trait CommandTrait {
    /// The packet type of a command carrying this message.
    spec fn spec_packet_type() -> u16;

    /// Returns the packet type expected by a command carrying this message.
    fn packet_type() -> (r: u16)
        ensures
            r == Self::spec_packet_type(),
    ;
}

} // verus!
