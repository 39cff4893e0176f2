//! Traits shared amongst the various structures.

mod command_trait;
mod device_trait;

pub use command_trait::CommandTrait;
pub use device_trait::DeviceTrait;
