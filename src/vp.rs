//! The records and handles of the Vulkan Profiles library.
use vstd::prelude::*;

use crate::utils::{
    c_str_until_nul, is_c_str, with_c_str, wrap_c_str_slice_until_nul, write_c_str_slice_with_nul,
    NameTooLarge, NulNotFound, debug_flags, flags_text,
};

pub mod video_queue;

verus! {

/// The size of a profile or block name field, terminator included.
pub const VP_MAX_PROFILE_NAME_SIZE: usize = 256;

/// A profile: its name, NUL-terminated in a fixed-size field, and its version.
#[derive(Clone, Copy, Debug, Eq)]
pub struct ProfileProperties {
    pub profile_name: [u8; 256],
    pub spec_version: u32,
}

/// Whether two name fields hold the same bytes.
pub fn same_name_field(a: &[u8; 256], b: &[u8; 256]) -> (r: bool)
    ensures
        r == (a@ == b@),
{
    let mut i: usize = 0;
    while i < VP_MAX_PROFILE_NAME_SIZE
        invariant
            i <= VP_MAX_PROFILE_NAME_SIZE,
            forall|j: int| 0 <= j < i ==> a@[j] == b@[j],
        decreases VP_MAX_PROFILE_NAME_SIZE - i,
    {
        if a[i] != b[i] {
            return false;
        }
        i = i + 1;
    }
    assert(a@ =~= b@);
    true
}

/// Two profiles are equal where their name fields and versions are.
impl PartialEq for ProfileProperties {
    fn eq(&self, other: &ProfileProperties) -> (r: bool) {
        same_name_field(&self.profile_name, &other.profile_name) && self.spec_version
            == other.spec_version
    }
}

impl vstd::std_specs::cmp::PartialEqSpecImpl for ProfileProperties {
    open spec fn obeys_eq_spec() -> bool {
        true
    }

    open spec fn eq_spec(&self, other: &ProfileProperties) -> bool {
        self.profile_name@ == other.profile_name@ && self.spec_version == other.spec_version
    }
}

impl Default for ProfileProperties {
    /// An empty name and version 1.
    fn default() -> (r: ProfileProperties)
        ensures
            forall|i: int| 0 <= i < VP_MAX_PROFILE_NAME_SIZE ==> r.profile_name@[i] == 0u8,
            r.spec_version == 1,
    {
        ProfileProperties { profile_name: [0u8; 256], spec_version: 1 }
    }
}

impl ProfileProperties {
    /// The profile with its name set to `name`; fails where `name` and its
    /// terminator do not fit.
    pub fn profile_name(self, name: &[u8]) -> (r: Result<ProfileProperties, NameTooLarge>)
        requires
            is_c_str(name@),
            name@.len() < usize::MAX,
        ensures
            name@.len() < VP_MAX_PROFILE_NAME_SIZE <==> r is Ok,
            r is Ok ==> r->Ok_0.profile_name@ == with_c_str(self.profile_name@, name@)
                && r->Ok_0.spec_version == self.spec_version,
            r is Err ==> r->Err_0 == (NameTooLarge {
                static_array_size: VP_MAX_PROFILE_NAME_SIZE,
                c_str_size: (name@.len() + 1) as usize,
            }),
    {
        let mut this = self;
        write_c_str_slice_with_nul(&mut this.profile_name, name)?;
        Ok(this)
    }

    pub fn spec_version(self, version: u32) -> (r: ProfileProperties)
        ensures
            r.profile_name == self.profile_name,
            r.spec_version == version,
    {
        ProfileProperties { spec_version: version, ..self }
    }

    /// The name: the bytes before the first NUL of its field.
    pub fn profile_name_as_c_str(&self) -> (r: Result<&[u8], NulNotFound>)
        ensures
            match c_str_until_nul(self.profile_name@) {
                Some(text) => r is Ok && r->Ok_0@ == text,
                None => r is Err,
            },
    {
        wrap_c_str_slice_until_nul(&self.profile_name)
    }
}


/// A block of a profile: the profile it belongs to, its API version and its
/// name, NUL-terminated in a fixed-size field.
#[derive(Clone, Copy, Debug, Eq)]
pub struct BlockProperties {
    pub profiles: ProfileProperties,
    pub api_version: u32,
    pub block_name: [u8; 256],
}

/// Two blocks are equal where their profiles, versions and name fields are.
impl PartialEq for BlockProperties {
    fn eq(&self, other: &BlockProperties) -> (r: bool) {
        self.profiles.eq(&other.profiles) && self.api_version == other.api_version
            && same_name_field(&self.block_name, &other.block_name)
    }
}

impl vstd::std_specs::cmp::PartialEqSpecImpl for BlockProperties {
    open spec fn obeys_eq_spec() -> bool {
        true
    }

    open spec fn eq_spec(&self, other: &BlockProperties) -> bool {
        self.profiles.profile_name@ == other.profiles.profile_name@
            && self.profiles.spec_version == other.profiles.spec_version
            && self.api_version == other.api_version && self.block_name@ == other.block_name@
    }
}

impl Default for BlockProperties {
    /// The default profile, API version 0 and an empty name.
    fn default() -> (r: BlockProperties)
        ensures
            forall|i: int| 0 <= i < VP_MAX_PROFILE_NAME_SIZE ==> r.profiles.profile_name@[i] == 0u8,
            r.profiles.spec_version == 1,
            r.api_version == 0,
            forall|i: int| 0 <= i < VP_MAX_PROFILE_NAME_SIZE ==> r.block_name@[i] == 0u8,
    {
        BlockProperties { profiles: ProfileProperties::default(), api_version: 0, block_name: [0u8; 256] }
    }
}

impl BlockProperties {
    pub fn profiles(self, profiles: ProfileProperties) -> (r: BlockProperties)
        ensures
            r.profiles == profiles,
            r.api_version == self.api_version,
            r.block_name == self.block_name,
    {
        BlockProperties { profiles, ..self }
    }

    pub fn api_version(self, version: u32) -> (r: BlockProperties)
        ensures
            r.profiles == self.profiles,
            r.api_version == version,
            r.block_name == self.block_name,
    {
        BlockProperties { api_version: version, ..self }
    }

    /// The block with its name set to `name`; fails where `name` and its
    /// terminator do not fit.
    pub fn block_name(self, name: &[u8]) -> (r: Result<BlockProperties, NameTooLarge>)
        requires
            is_c_str(name@),
            name@.len() < usize::MAX,
        ensures
            name@.len() < VP_MAX_PROFILE_NAME_SIZE <==> r is Ok,
            r is Ok ==> r->Ok_0.block_name@ == with_c_str(self.block_name@, name@)
                && r->Ok_0.profiles == self.profiles && r->Ok_0.api_version == self.api_version,
            r is Err ==> r->Err_0 == (NameTooLarge {
                static_array_size: VP_MAX_PROFILE_NAME_SIZE,
                c_str_size: (name@.len() + 1) as usize,
            }),
    {
        let mut this = self;
        write_c_str_slice_with_nul(&mut this.block_name, name)?;
        Ok(this)
    }

    /// The name: the bytes before the first NUL of its field.
    pub fn block_name_as_c_str(&self) -> (r: Result<&[u8], NulNotFound>)
        ensures
            match c_str_until_nul(self.block_name@) {
                Some(text) => r is Ok && r->Ok_0@ == text,
                None => r is Err,
            },
    {
        wrap_c_str_slice_until_nul(&self.block_name)
    }
}

/// A handle to the library's capabilities object (`VpCapabilities`), held as
/// its raw value.
#[derive(Clone, Copy, Debug, PartialEq, Eq, Structural)]
pub struct Capabilities {
    pub raw: u64,
}

impl Capabilities {
    pub fn from_raw(raw: u64) -> (r: Capabilities)
        ensures
            r.raw == raw,
    {
        Capabilities { raw }
    }

    pub fn as_raw(self) -> (r: u64)
        ensures
            r == self.raw,
    {
        self.raw
    }

    /// The null handle.
    pub fn null() -> (r: Capabilities)
        ensures
            r.raw == 0,
    {
        Capabilities { raw: 0 }
    }
}


/// Flags of `VpInstanceCreateInfo`; the library defines none.
#[derive(Clone, Copy, Debug, PartialEq, Eq, Structural)]
pub struct InstanceCreateFlags(pub u32);

impl InstanceCreateFlags {
    pub fn from_raw(raw: u32) -> (r: InstanceCreateFlags)
        ensures
            r.0 == raw,
    {
        InstanceCreateFlags(raw)
    }

    pub fn as_raw(self) -> (r: u32)
        ensures
            r == self.0,
    {
        self.0
    }

    /// The flags in the form `debug_flags` writes, with no known name.
    pub fn debug_text(&self) -> (r: String)
        ensures
            r@ == flags_text(Seq::empty(), self.0 as u64),
    {
        let known: [(u64, &str); 0] = [];
        let r = debug_flags(known.as_slice(), self.0 as u64);
        assert(known@ =~= Seq::<(u64, &str)>::empty());
        r
    }
}

/// Flags of `VpDeviceCreateInfo`.
#[derive(Clone, Copy, Debug, PartialEq, Eq, Structural)]
pub struct DeviceCreateFlags(pub u32);

impl DeviceCreateFlags {
    /// `VP_DEVICE_CREATE_DISABLE_ROBUST_BUFFER_ACCESS_BIT`
    pub fn disable_robust_buffer_access() -> (r: DeviceCreateFlags)
        ensures
            r.0 == 0x1,
    {
        DeviceCreateFlags(0x1)
    }

    /// `VP_DEVICE_CREATE_DISABLE_ROBUST_IMAGE_ACCESS_BIT`
    pub fn disable_robust_image_access() -> (r: DeviceCreateFlags)
        ensures
            r.0 == 0x2,
    {
        DeviceCreateFlags(0x2)
    }

    /// Both of the above.
    pub fn disable_robust_access() -> (r: DeviceCreateFlags)
        ensures
            r.0 == 0x3,
    {
        DeviceCreateFlags(0x3)
    }

    pub fn from_raw(raw: u32) -> (r: DeviceCreateFlags)
        ensures
            r.0 == raw,
    {
        DeviceCreateFlags(raw)
    }

    pub fn as_raw(self) -> (r: u32)
        ensures
            r == self.0,
    {
        self.0
    }

    /// Whether every flag of `other` is set in `self`.
    pub fn contains(self, other: DeviceCreateFlags) -> (r: bool)
        ensures
            r == (self.0 & other.0 == other.0),
    {
        self.0 & other.0 == other.0
    }

    /// The union of both sets of flags.
    pub fn union(self, other: DeviceCreateFlags) -> (r: DeviceCreateFlags)
        ensures
            r.0 == self.0 | other.0,
    {
        DeviceCreateFlags(self.0 | other.0)
    }

    /// The flags by name, the combined name first, then the unnamed bits in
    /// binary.
    pub fn debug_text(&self) -> (r: String)
        ensures
            r@ == flags_text(
                seq![
                    (0x3u64, "DISABLE_ROBUST_ACCESS"),
                    (0x1u64, "DISABLE_ROBUST_BUFFER_ACCESS"),
                    (0x2u64, "DISABLE_ROBUST_IMAGE_ACCESS"),
                ],
                self.0 as u64,
            ),
    {
        let known: [(u64, &str); 3] = [
            (0x3u64, "DISABLE_ROBUST_ACCESS"),
            (0x1u64, "DISABLE_ROBUST_BUFFER_ACCESS"),
            (0x2u64, "DISABLE_ROBUST_IMAGE_ACCESS"),
        ];
        let r = debug_flags(known.as_slice(), self.0 as u64);
        assert(known@ =~= seq![
            (0x3u64, "DISABLE_ROBUST_ACCESS"),
            (0x1u64, "DISABLE_ROBUST_BUFFER_ACCESS"),
            (0x2u64, "DISABLE_ROBUST_IMAGE_ACCESS"),
        ]);
        r
    }
}

/// Flags of `VpCapabilitiesCreateInfo`.
#[derive(Clone, Copy, Debug, PartialEq, Eq, Structural)]
pub struct CapabilitiesCreateFlags(pub u32);

impl CapabilitiesCreateFlags {
    /// `VP_PROFILE_CREATE_STATIC_BIT`: the library's entry points are linked
    /// with the program.
    pub fn static_linking() -> (r: CapabilitiesCreateFlags)
        ensures
            r.0 == 0x1,
    {
        CapabilitiesCreateFlags(0x1)
    }

    pub fn from_raw(raw: u32) -> (r: CapabilitiesCreateFlags)
        ensures
            r.0 == raw,
    {
        CapabilitiesCreateFlags(raw)
    }

    pub fn as_raw(self) -> (r: u32)
        ensures
            r == self.0,
    {
        self.0
    }

    /// The flags by name, then the unnamed bits in binary.
    pub fn debug_text(&self) -> (r: String)
        ensures
            r@ == flags_text(seq![(0x1u64, "STATIC")], self.0 as u64),
    {
        let known: [(u64, &str); 1] = [(0x1u64, "STATIC")];
        let r = debug_flags(known.as_slice(), self.0 as u64);
        assert(known@ =~= seq![(0x1u64, "STATIC")]);
        r
    }
}

} // verus!
