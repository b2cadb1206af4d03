//! Owned forms of the SANE data structures: devices, option descriptors
//! with their constraints, the builders that make descriptors, and option
//! capabilities.

pub mod capabilities;
pub mod device;
pub mod option_descriptor;

pub use capabilities::Capabilities;

pub use device::{Device, DeviceBuf, DeviceModel, DevicesBuf, DevicesIter};
pub use option_descriptor::{
    BoolOptionBuilder, ButtonOptionBuilder, Constraint, ConstraintModel, FixedOptionBuilder,
    GroupOptionBuilder, IntOptionBuilder, OptionDescriptor, OptionDescriptorBuf, OptionDescriptorModel,
    StringList, StringListIter, StringOptionBuilder, WordList, WordListIter,
};
