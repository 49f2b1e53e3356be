//! The capabilities object: the library's queries on profiles.
//!
//! Each query is a call of a foreign entry point through the dispatch table.
//! What the library decides around a call stands here: it takes what the call
//! returned and gives the query's result, or, for a list query, the next call
//! to make (see `enumerate`).
use vstd::prelude::*;

use ash::vk;

use crate::entry::EntryPoint;
use crate::enumerate::{
    answers, next_step, next_step_with_flag, read_all_step, read_all_with_flag_step, Progress, Reply,
    Request,
};
use crate::status::{bool32_is_true, ResultCode, VkResult, SUCCESS, TRUE};
use crate::vp::{self, BlockProperties, ProfileProperties};

verus! {

/// ash's `vk::Format` (`VkFormat`): an opaque value here, carried through list
/// queries as the foreign function wrote it.
#[verifier::external_type_specification]
#[verifier::external_body]
pub struct ExFormat(vk::Format);

/// ash's `vk::StructureType` (`VkStructureType`): an opaque value here, carried through list
/// queries as the foreign function wrote it.
#[verifier::external_type_specification]
#[verifier::external_body]
pub struct ExStructureType(vk::StructureType);

/// ash's `vk::ExtensionProperties` (`VkExtensionProperties`): an opaque value here, carried through
/// list queries as the foreign function wrote it.
#[verifier::external_type_specification]
#[verifier::external_body]
pub struct ExExtensionProperties(vk::ExtensionProperties);

/// The dispatch table of a capabilities object: one slot per entry point.
#[derive(Clone, Copy, Debug, PartialEq, Eq, Structural)]
pub struct CapabilitiesFn {
    pub destroy_capabilities: EntryPoint,
    pub get_profiles: EntryPoint,
    pub get_profile_required_profiles: EntryPoint,
    pub get_profile_api_version: EntryPoint,
    pub get_profile_fallbacks: EntryPoint,
    pub has_multiple_variants_profile: EntryPoint,
    pub get_instance_profile_support: EntryPoint,
    pub get_instance_profile_variants_support: EntryPoint,
    pub create_instance: EntryPoint,
    pub get_physical_device_profile_support: EntryPoint,
    pub get_physical_device_profile_variants_support: EntryPoint,
    pub create_device: EntryPoint,
    pub get_profile_instance_extension_properties: EntryPoint,
    pub get_profile_device_extension_properties: EntryPoint,
    pub get_profile_features: EntryPoint,
    pub get_profile_feature_structure_types: EntryPoint,
    pub get_profile_properties: EntryPoint,
    pub get_profile_property_structure_types: EntryPoint,
    pub get_profile_formats: EntryPoint,
    pub get_profile_format_properties: EntryPoint,
    pub get_profile_format_structure_types: EntryPoint,
    pub get_profile_queue_family_properties: EntryPoint,
    pub get_profile_queue_family_structure_types: EntryPoint,
}

impl CapabilitiesFn {
    /// Each slot holds the entry point of its own name.
    pub open spec fn is_linked(&self) -> bool {
        &&& self.destroy_capabilities == EntryPoint::DestroyCapabilities
        &&& self.get_profiles == EntryPoint::GetProfiles
        &&& self.get_profile_required_profiles == EntryPoint::GetProfileRequiredProfiles
        &&& self.get_profile_api_version == EntryPoint::GetProfileApiVersion
        &&& self.get_profile_fallbacks == EntryPoint::GetProfileFallbacks
        &&& self.has_multiple_variants_profile == EntryPoint::HasMultipleVariantsProfile
        &&& self.get_instance_profile_support == EntryPoint::GetInstanceProfileSupport
        &&& self.get_instance_profile_variants_support
            == EntryPoint::GetInstanceProfileVariantsSupport
        &&& self.create_instance == EntryPoint::CreateInstance
        &&& self.get_physical_device_profile_support == EntryPoint::GetPhysicalDeviceProfileSupport
        &&& self.get_physical_device_profile_variants_support
            == EntryPoint::GetPhysicalDeviceProfileVariantsSupport
        &&& self.create_device == EntryPoint::CreateDevice
        &&& self.get_profile_instance_extension_properties
            == EntryPoint::GetProfileInstanceExtensionProperties
        &&& self.get_profile_device_extension_properties
            == EntryPoint::GetProfileDeviceExtensionProperties
        &&& self.get_profile_features == EntryPoint::GetProfileFeatures
        &&& self.get_profile_feature_structure_types == EntryPoint::GetProfileFeatureStructureTypes
        &&& self.get_profile_properties == EntryPoint::GetProfileProperties
        &&& self.get_profile_property_structure_types
            == EntryPoint::GetProfilePropertyStructureTypes
        &&& self.get_profile_formats == EntryPoint::GetProfileFormats
        &&& self.get_profile_format_properties == EntryPoint::GetProfileFormatProperties
        &&& self.get_profile_format_structure_types == EntryPoint::GetProfileFormatStructureTypes
        &&& self.get_profile_queue_family_properties == EntryPoint::GetProfileQueueFamilyProperties
        &&& self.get_profile_queue_family_structure_types
            == EntryPoint::GetProfileQueueFamilyStructureTypes
    }

    /// The table of the statically linked library.
    pub fn linked() -> (r: CapabilitiesFn)
        ensures
            r.is_linked(),
    {
        CapabilitiesFn {
            destroy_capabilities: EntryPoint::DestroyCapabilities,
            get_profiles: EntryPoint::GetProfiles,
            get_profile_required_profiles: EntryPoint::GetProfileRequiredProfiles,
            get_profile_api_version: EntryPoint::GetProfileApiVersion,
            get_profile_fallbacks: EntryPoint::GetProfileFallbacks,
            has_multiple_variants_profile: EntryPoint::HasMultipleVariantsProfile,
            get_instance_profile_support: EntryPoint::GetInstanceProfileSupport,
            get_instance_profile_variants_support: EntryPoint::GetInstanceProfileVariantsSupport,
            create_instance: EntryPoint::CreateInstance,
            get_physical_device_profile_support: EntryPoint::GetPhysicalDeviceProfileSupport,
            get_physical_device_profile_variants_support:
                EntryPoint::GetPhysicalDeviceProfileVariantsSupport,
            create_device: EntryPoint::CreateDevice,
            get_profile_instance_extension_properties:
                EntryPoint::GetProfileInstanceExtensionProperties,
            get_profile_device_extension_properties:
                EntryPoint::GetProfileDeviceExtensionProperties,
            get_profile_features: EntryPoint::GetProfileFeatures,
            get_profile_feature_structure_types: EntryPoint::GetProfileFeatureStructureTypes,
            get_profile_properties: EntryPoint::GetProfileProperties,
            get_profile_property_structure_types: EntryPoint::GetProfilePropertyStructureTypes,
            get_profile_formats: EntryPoint::GetProfileFormats,
            get_profile_format_properties: EntryPoint::GetProfileFormatProperties,
            get_profile_format_structure_types: EntryPoint::GetProfileFormatStructureTypes,
            get_profile_queue_family_properties: EntryPoint::GetProfileQueueFamilyProperties,
            get_profile_queue_family_structure_types:
                EntryPoint::GetProfileQueueFamilyStructureTypes,
        }
    }
}

/// A capabilities object: a handle owned by the library, and the table through
/// which it is queried.
#[derive(Clone)]
pub struct Capabilities {
    handle: vp::Capabilities,
    fp: CapabilitiesFn,
}

/// The outcome of a query that writes a `VkBool32`: whether it was `VK_TRUE`,
/// where the call succeeded.
pub open spec fn flag_result(status: ResultCode, flag: u32) -> VkResult<bool> {
    if status.raw == SUCCESS {
        Ok(flag == TRUE)
    } else {
        Err(status)
    }
}

/// `flag_result`, computed.
fn flag_query_result(status: ResultCode, flag: u32) -> (r: VkResult<bool>)
    ensures
        r == flag_result(status, flag),
{
    status.result()?;
    Ok(bool32_is_true(flag))
}

impl Capabilities {
    pub closed spec fn spec_handle(&self) -> vp::Capabilities {
        self.handle
    }

    pub closed spec fn spec_fp(&self) -> CapabilitiesFn {
        self.fp
    }

    /// The object owning `handle`, queried through the linked library.
    pub fn linked(handle: vp::Capabilities) -> (r: Capabilities)
        ensures
            r.spec_handle() == handle,
            r.spec_fp().is_linked(),
    {
        Capabilities { handle, fp: CapabilitiesFn::linked() }
    }

    /// The underlying handle.
    pub fn handle(&self) -> (r: vp::Capabilities)
        ensures
            r == self.spec_handle(),
    {
        self.handle
    }

    /// The dispatch table.
    pub fn fp(&self) -> (r: &CapabilitiesFn)
        ensures
            *r == self.spec_fp(),
    {
        &self.fp
    }

    /// `vpHasMultipleVariantsProfile`, given its status and the flag it wrote.
    pub fn has_multiple_variants_profile(
        &self,
        status: ResultCode,
        has_multiple_variants: u32,
    ) -> (r: VkResult<bool>)
        ensures
            r == flag_result(status, has_multiple_variants),
    {
        flag_query_result(status, has_multiple_variants)
    }

    /// `vpGetInstanceProfileSupport`, given its status and the flag it wrote.
    pub fn get_instance_profile_support(
        &self,
        status: ResultCode,
        supported: u32,
    ) -> (r: VkResult<bool>)
        ensures
            r == flag_result(status, supported),
    {
        flag_query_result(status, supported)
    }

    /// `vpGetPhysicalDeviceProfileSupport`, given its status and the flag it wrote.
    pub fn get_physical_device_profile_support(
        &self,
        status: ResultCode,
        supported: u32,
    ) -> (r: VkResult<bool>)
        ensures
            r == flag_result(status, supported),
    {
        flag_query_result(status, supported)
    }

    /// One step of listing the profiles of the library (`vpGetProfiles`): what
    /// follows `reply`, the answer to `request`.
    pub fn get_profiles(
        &self,
        request: Request,
        reply: Reply<Vec<ProfileProperties>>,
    ) -> (r: Progress<Vec<ProfileProperties>>)
        requires
            answers(request, reply@),
        ensures
            r@ == next_step(reply@),
    {
        read_all_step(request, reply)
    }

    /// One step of listing the profiles a profile requires (`vpGetProfileRequiredProfiles`): what
    /// follows `reply`, the answer to `request`.
    pub fn get_profile_required_profiles(
        &self,
        request: Request,
        reply: Reply<Vec<ProfileProperties>>,
    ) -> (r: Progress<Vec<ProfileProperties>>)
        requires
            answers(request, reply@),
        ensures
            r@ == next_step(reply@),
    {
        read_all_step(request, reply)
    }

    /// One step of listing the fallback profiles of a profile (`vpGetProfileFallbacks`): what
    /// follows `reply`, the answer to `request`.
    pub fn get_profile_fallbacks(
        &self,
        request: Request,
        reply: Reply<Vec<ProfileProperties>>,
    ) -> (r: Progress<Vec<ProfileProperties>>)
        requires
            answers(request, reply@),
        ensures
            r@ == next_step(reply@),
    {
        read_all_step(request, reply)
    }

    /// One step of listing the instance extensions of a profile
    /// (`vpGetProfileInstanceExtensionProperties`): what follows `reply`, the answer to `request`.
    pub fn get_profile_instance_extension_properties(
        &self,
        request: Request,
        reply: Reply<Vec<vk::ExtensionProperties>>,
    ) -> (r: Progress<Vec<vk::ExtensionProperties>>)
        requires
            answers(request, reply@),
        ensures
            r@ == next_step(reply@),
    {
        read_all_step(request, reply)
    }

    /// One step of listing the device extensions of a profile
    /// (`vpGetProfileDeviceExtensionProperties`): what follows `reply`, the answer to `request`.
    pub fn get_profile_device_extension_properties(
        &self,
        request: Request,
        reply: Reply<Vec<vk::ExtensionProperties>>,
    ) -> (r: Progress<Vec<vk::ExtensionProperties>>)
        requires
            answers(request, reply@),
        ensures
            r@ == next_step(reply@),
    {
        read_all_step(request, reply)
    }

    /// One step of listing the feature structure types of a profile
    /// (`vpGetProfileFeatureStructureTypes`): what follows `reply`, the answer to `request`.
    pub fn get_profile_feature_structure_types(
        &self,
        request: Request,
        reply: Reply<Vec<vk::StructureType>>,
    ) -> (r: Progress<Vec<vk::StructureType>>)
        requires
            answers(request, reply@),
        ensures
            r@ == next_step(reply@),
    {
        read_all_step(request, reply)
    }

    /// One step of listing the property structure types of a profile
    /// (`vpGetProfilePropertyStructureTypes`): what follows `reply`, the answer to `request`.
    pub fn get_profile_property_structure_types(
        &self,
        request: Request,
        reply: Reply<Vec<vk::StructureType>>,
    ) -> (r: Progress<Vec<vk::StructureType>>)
        requires
            answers(request, reply@),
        ensures
            r@ == next_step(reply@),
    {
        read_all_step(request, reply)
    }

    /// One step of listing the queue family structure types of a profile
    /// (`vpGetProfileQueueFamilyStructureTypes`): what follows `reply`, the answer to `request`.
    pub fn get_profile_queue_family_structure_types(
        &self,
        request: Request,
        reply: Reply<Vec<vk::StructureType>>,
    ) -> (r: Progress<Vec<vk::StructureType>>)
        requires
            answers(request, reply@),
        ensures
            r@ == next_step(reply@),
    {
        read_all_step(request, reply)
    }

    /// One step of listing the formats a profile sets requirements on (`vpGetProfileFormats`): what
    /// follows `reply`, the answer to `request`.
    pub fn get_profile_formats(
        &self,
        request: Request,
        reply: Reply<Vec<vk::Format>>,
    ) -> (r: Progress<Vec<vk::Format>>)
        requires
            answers(request, reply@),
        ensures
            r@ == next_step(reply@),
    {
        read_all_step(request, reply)
    }

    /// One step of listing the format structure types of a profile
    /// (`vpGetProfileFormatStructureTypes`): what follows `reply`, the answer to `request`.
    pub fn get_profile_format_structure_types(
        &self,
        request: Request,
        reply: Reply<Vec<vk::StructureType>>,
    ) -> (r: Progress<Vec<vk::StructureType>>)
        requires
            answers(request, reply@),
        ensures
            r@ == next_step(reply@),
    {
        read_all_step(request, reply)
    }

    /// One step of checking whether a variant of a profile is supported at the instance level, and
    /// listing the blocks checked (`vpGetInstanceProfileVariantsSupport`): what follows `reply`,
    /// the answer to `request`, of a call that wrote `supported`.
    pub fn get_instance_profile_variants_support(
        &self,
        request: Request,
        reply: Reply<Vec<BlockProperties>>,
        supported: u32,
    ) -> (r: Progress<(Vec<BlockProperties>, bool)>)
        requires
            answers(request, reply@),
        ensures
            r@ == next_step_with_flag(reply@, supported),
    {
        read_all_with_flag_step(request, reply, supported)
    }

    /// One step of checking whether a variant of a profile is supported by a physical device, and
    /// listing the blocks checked (`vpGetPhysicalDeviceProfileVariantsSupport`): what follows
    /// `reply`, the answer to `request`, of a call that wrote `supported`.
    pub fn get_physical_device_profile_variants_support(
        &self,
        request: Request,
        reply: Reply<Vec<BlockProperties>>,
        supported: u32,
    ) -> (r: Progress<(Vec<BlockProperties>, bool)>)
        requires
            answers(request, reply@),
        ensures
            r@ == next_step_with_flag(reply@, supported),
    {
        read_all_with_flag_step(request, reply, supported)
    }
}

} // verus!
