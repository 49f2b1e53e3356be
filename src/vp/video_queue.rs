//! The video queries of the library (`VK_KHR_video_queue`).
use vstd::prelude::*;

use ash::vk;

use crate::entry::EntryPoint;
use crate::enumerate::{answers, next_step, read_all_step, Progress, Reply, Request};
use crate::utils::{
    c_str_until_nul, is_c_str, with_c_str, wrap_c_str_slice_until_nul, write_c_str_slice_with_nul,
    NameTooLarge, NulNotFound,
};
use crate::vp::{self, BlockProperties, VP_MAX_PROFILE_NAME_SIZE};

verus! {

/// ash's `vk::VideoFormatPropertiesKHR` (`VkVideoFormatPropertiesKHR`): an
/// opaque value here, carried through list queries as the foreign function
/// wrote it.
#[verifier::external_type_specification]
#[verifier::external_body]
pub struct ExVideoFormatPropertiesKHR<'a>(vk::VideoFormatPropertiesKHR<'a>);

/// A video profile of a profile: the block that defines it and its name,
/// NUL-terminated in a fixed-size field.
#[derive(Clone, Copy, Debug)]
pub struct VideoProfileProperties {
    pub block: BlockProperties,
    pub name: [u8; 256],
}

impl Default for VideoProfileProperties {
    /// The default block and an empty name.
    fn default() -> (r: VideoProfileProperties)
        ensures
            forall|i: int| 0 <= i < VP_MAX_PROFILE_NAME_SIZE ==> r.name@[i] == 0u8,
            r.block.api_version == 0,
    {
        VideoProfileProperties { block: BlockProperties::default(), name: [0u8; 256] }
    }
}

impl VideoProfileProperties {
    /// The video profile with its name set to `name`; fails where `name` and
    /// its terminator do not fit.
    pub fn name(self, name: &[u8]) -> (r: Result<VideoProfileProperties, NameTooLarge>)
        requires
            is_c_str(name@),
            name@.len() < usize::MAX,
        ensures
            name@.len() < VP_MAX_PROFILE_NAME_SIZE <==> r is Ok,
            r is Ok ==> r->Ok_0.name@ == with_c_str(self.name@, name@) && r->Ok_0.block == self.block,
            r is Err ==> r->Err_0 == (NameTooLarge {
                static_array_size: VP_MAX_PROFILE_NAME_SIZE,
                c_str_size: (name@.len() + 1) as usize,
            }),
    {
        let mut this = self;
        write_c_str_slice_with_nul(&mut this.name, name)?;
        Ok(this)
    }

    /// The name: the bytes before the first NUL of its field.
    pub fn name_as_c_str(&self) -> (r: Result<&[u8], NulNotFound>)
        ensures
            match c_str_until_nul(self.name@) {
                Some(text) => r is Ok && r->Ok_0@ == text,
                None => r is Err,
            },
    {
        wrap_c_str_slice_until_nul(&self.name)
    }
}

/// The dispatch table of the video queries.
#[derive(Clone, Copy, Debug, PartialEq, Eq, Structural)]
pub struct CapabilitiesFn {
    pub get_profile_video_profiles: EntryPoint,
    pub get_profile_video_profile_info: EntryPoint,
    pub get_profile_video_profile_info_structure_types: EntryPoint,
    pub get_profile_video_capabilities: EntryPoint,
    pub get_profile_video_capability_structure_types: EntryPoint,
    pub get_profile_video_format_properties: EntryPoint,
    pub get_profile_video_format_structure_types: EntryPoint,
}

impl CapabilitiesFn {
    /// Each slot holds the entry point of its own name.
    pub open spec fn is_linked(&self) -> bool {
        &&& self.get_profile_video_profiles == EntryPoint::GetProfileVideoProfiles
        &&& self.get_profile_video_profile_info == EntryPoint::GetProfileVideoProfileInfo
        &&& self.get_profile_video_profile_info_structure_types
            == EntryPoint::GetProfileVideoProfileInfoStructureTypes
        &&& self.get_profile_video_capabilities == EntryPoint::GetProfileVideoCapabilities
        &&& self.get_profile_video_capability_structure_types
            == EntryPoint::GetProfileVideoCapabilityStructureTypes
        &&& self.get_profile_video_format_properties == EntryPoint::GetProfileVideoFormatProperties
        &&& self.get_profile_video_format_structure_types
            == EntryPoint::GetProfileVideoFormatStructureTypes
    }

    /// The table of the statically linked library.
    pub fn linked() -> (r: CapabilitiesFn)
        ensures
            r.is_linked(),
    {
        CapabilitiesFn {
            get_profile_video_profiles: EntryPoint::GetProfileVideoProfiles,
            get_profile_video_profile_info: EntryPoint::GetProfileVideoProfileInfo,
            get_profile_video_profile_info_structure_types:
                EntryPoint::GetProfileVideoProfileInfoStructureTypes,
            get_profile_video_capabilities: EntryPoint::GetProfileVideoCapabilities,
            get_profile_video_capability_structure_types:
                EntryPoint::GetProfileVideoCapabilityStructureTypes,
            get_profile_video_format_properties: EntryPoint::GetProfileVideoFormatProperties,
            get_profile_video_format_structure_types:
                EntryPoint::GetProfileVideoFormatStructureTypes,
        }
    }
}

/// The video queries of a capabilities object.
pub struct Capabilities {
    handle: vp::Capabilities,
    fp: CapabilitiesFn,
}

impl Capabilities {
    pub closed spec fn spec_handle(&self) -> vp::Capabilities {
        self.handle
    }

    pub closed spec fn spec_fp(&self) -> CapabilitiesFn {
        self.fp
    }

    /// The video queries of the object owning `handle`, through the linked
    /// library.
    pub fn linked(handle: vp::Capabilities) -> (r: Capabilities)
        ensures
            r.spec_handle() == handle,
            r.spec_fp().is_linked(),
    {
        Capabilities { handle, fp: CapabilitiesFn::linked() }
    }

    /// The underlying handle.
    pub fn handle(&self) -> (r: vp::Capabilities)
        ensures
            r == self.spec_handle(),
    {
        self.handle
    }

    /// The dispatch table.
    pub fn fp(&self) -> (r: &CapabilitiesFn)
        ensures
            *r == self.spec_fp(),
    {
        &self.fp
    }

    /// One step of listing the video profiles of a profile (`vpGetProfileVideoProfiles`):
    /// what follows `reply`, the answer to `request`.
    pub fn get_profile_video_profiles(
        &self,
        request: Request,
        reply: Reply<Vec<VideoProfileProperties>>,
    ) -> (r: Progress<Vec<VideoProfileProperties>>)
        requires
            answers(request, reply@),
        ensures
            r@ == next_step(reply@),
    {
        read_all_step(request, reply)
    }

    /// One step of listing the profile info structure types of a video profile
    /// (`vpGetProfileVideoProfileInfoStructureTypes`): what follows `reply`, the answer to
    /// `request`.
    pub fn get_profile_video_profile_info_structure_types(
        &self,
        request: Request,
        reply: Reply<Vec<vk::StructureType>>,
    ) -> (r: Progress<Vec<vk::StructureType>>)
        requires
            answers(request, reply@),
        ensures
            r@ == next_step(reply@),
    {
        read_all_step(request, reply)
    }

    /// One step of listing the capability structure types of a video profile
    /// (`vpGetProfileVideoCapabilityStructureTypes`): what follows `reply`, the answer to
    /// `request`.
    pub fn get_profile_video_capability_structure_types(
        &self,
        request: Request,
        reply: Reply<Vec<vk::StructureType>>,
    ) -> (r: Progress<Vec<vk::StructureType>>)
        requires
            answers(request, reply@),
        ensures
            r@ == next_step(reply@),
    {
        read_all_step(request, reply)
    }

    /// One step of listing the format properties of a video profile
    /// (`vpGetProfileVideoFormatProperties`): what follows `reply`, the answer to `request`.
    pub fn get_profile_video_format_properties<'a>(
        &self,
        request: Request,
        reply: Reply<Vec<vk::VideoFormatPropertiesKHR<'a>>>,
    ) -> (r: Progress<Vec<vk::VideoFormatPropertiesKHR<'a>>>)
        requires
            answers(request, reply@),
        ensures
            r@ == next_step(reply@),
    {
        read_all_step(request, reply)
    }

    /// One step of listing the format structure types of a video profile
    /// (`vpGetProfileVideoFormatStructureTypes`): what follows `reply`, the answer to `request`.
    pub fn get_profile_video_format_structure_types(
        &self,
        request: Request,
        reply: Reply<Vec<vk::StructureType>>,
    ) -> (r: Progress<Vec<vk::StructureType>>)
        requires
            answers(request, reply@),
        ensures
            r@ == next_step(reply@),
    {
        read_all_step(request, reply)
    }
}

} // verus!
