//! Safe bindings to the Vulkan Profiles library: fixed-size profile and block
//! names, the count-then-fill enumeration protocol, result codes and the
//! dispatch tables of the library's entry points.

pub use capabilities::Capabilities;
pub use entry::Entry;

pub mod capabilities;
pub mod entry;
pub mod enumerate;
pub mod status;
pub mod utils;
pub mod vp;
