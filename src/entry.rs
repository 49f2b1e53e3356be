//! The library's entry: the table of its entry points and the creation of a
//! capabilities object.
use vstd::prelude::*;

use crate::capabilities::{Capabilities, CapabilitiesFn};
use crate::status::{ResultCode, VkResult, SUCCESS};
use crate::vp;

verus! {

/// An entry point of the Vulkan Profiles library, named after its C function.
#[derive(Clone, Copy, Debug, PartialEq, Eq, Structural)]
pub enum EntryPoint {
    CreateCapabilities,
    DestroyCapabilities,
    GetProfiles,
    GetProfileRequiredProfiles,
    GetProfileApiVersion,
    GetProfileFallbacks,
    HasMultipleVariantsProfile,
    GetInstanceProfileSupport,
    GetInstanceProfileVariantsSupport,
    CreateInstance,
    GetPhysicalDeviceProfileSupport,
    GetPhysicalDeviceProfileVariantsSupport,
    CreateDevice,
    GetProfileInstanceExtensionProperties,
    GetProfileDeviceExtensionProperties,
    GetProfileFeatures,
    GetProfileFeatureStructureTypes,
    GetProfileProperties,
    GetProfilePropertyStructureTypes,
    GetProfileFormats,
    GetProfileFormatProperties,
    GetProfileFormatStructureTypes,
    GetProfileQueueFamilyProperties,
    GetProfileQueueFamilyStructureTypes,
    GetProfileVideoProfiles,
    GetProfileVideoProfileInfo,
    GetProfileVideoProfileInfoStructureTypes,
    GetProfileVideoCapabilities,
    GetProfileVideoCapabilityStructureTypes,
    GetProfileVideoFormatProperties,
    GetProfileVideoFormatStructureTypes,
}

/// The dispatch table of the entry: where `vpCreateCapabilities` is reached.
#[derive(Clone, Copy, Debug, PartialEq, Eq, Structural)]
pub struct EntryFn {
    pub create_capabilities: EntryPoint,
}

impl EntryFn {
    /// Each slot holds the entry point of its own name.
    pub open spec fn is_linked(&self) -> bool {
        self.create_capabilities == EntryPoint::CreateCapabilities
    }

    /// The table of the statically linked library.
    pub fn linked() -> (r: EntryFn)
        ensures
            r.is_linked(),
    {
        EntryFn { create_capabilities: EntryPoint::CreateCapabilities }
    }
}

/// The Vulkan Profiles entry, from which capabilities objects are created.
pub struct Entry {
    entry_fn: EntryFn,
}

impl Entry {
    pub closed spec fn spec_fp(&self) -> EntryFn {
        self.entry_fn
    }

    /// The entry of the statically linked library.
    pub fn linked() -> (r: Entry)
        ensures
            r.spec_fp().is_linked(),
    {
        Entry { entry_fn: EntryFn::linked() }
    }

    /// The entry's dispatch table.
    pub fn fp(&self) -> (r: &EntryFn)
        ensures
            *r == self.spec_fp(),
    {
        &self.entry_fn
    }

    /// The outcome of `vpCreateCapabilities`, given the status it returned and
    /// the handle it wrote: the capabilities object that owns the handle where
    /// it succeeded, its status otherwise.
    pub fn create_capabilities(&self, status: ResultCode, handle: vp::Capabilities) -> (r: VkResult<
        Capabilities,
    >)
        ensures
            status.raw == SUCCESS <==> r is Ok,
            r is Ok ==> r->Ok_0.spec_handle() == handle && r->Ok_0.spec_fp().is_linked(),
            r is Err ==> r->Err_0 == status,
    {
        status.result()?;
        Ok(Capabilities::linked(handle))
    }
}

} // verus!
