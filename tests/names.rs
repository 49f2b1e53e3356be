use vp_ash::utils::{
    wrap_c_str_slice_until_nul, write_c_str_slice_with_nul, NameTooLarge, NulNotFound,
};
use vp_ash::vp::video_queue::VideoProfileProperties;
use vp_ash::vp::{BlockProperties, ProfileProperties, VP_MAX_PROFILE_NAME_SIZE};

#[test]
fn name_round_trip() {
    let profile = ProfileProperties::default()
        .profile_name(b"VP_test_supported")
        .unwrap();
    assert_eq!(profile.profile_name_as_c_str().unwrap(), b"VP_test_supported");
    assert_eq!(profile.spec_version, 1);
}

#[test]
fn name_round_trip_over_longer_name() {
    let profile = ProfileProperties::default()
        .profile_name(b"VP_a_much_longer_profile_name")
        .unwrap()
        .profile_name(b"VP_short")
        .unwrap();
    assert_eq!(profile.profile_name_as_c_str().unwrap(), b"VP_short");
}

#[test]
fn empty_name_is_terminator_only() {
    let profile = ProfileProperties::default().profile_name(b"").unwrap();
    assert_eq!(profile.profile_name_as_c_str().unwrap(), b"");
    assert_eq!(profile.profile_name[0], 0);
}

#[test]
fn name_of_capacity_minus_one_bytes_round_trips() {
    let name = vec![b'a'; VP_MAX_PROFILE_NAME_SIZE - 1];
    let profile = ProfileProperties::default().profile_name(&name).unwrap();
    assert_eq!(profile.profile_name_as_c_str().unwrap(), name.as_slice());
    assert_eq!(profile.profile_name[VP_MAX_PROFILE_NAME_SIZE - 1], 0);
}

#[test]
fn name_of_capacity_bytes_is_too_large() {
    let name = vec![b'a'; VP_MAX_PROFILE_NAME_SIZE];
    let r = ProfileProperties::default().profile_name(&name);
    assert_eq!(
        r.err(),
        Some(NameTooLarge {
            static_array_size: VP_MAX_PROFILE_NAME_SIZE,
            c_str_size: VP_MAX_PROFILE_NAME_SIZE + 1,
        })
    );
}

#[test]
fn failed_write_leaves_target_unchanged() {
    let mut target = [7u8; 4];
    let r = write_c_str_slice_with_nul(&mut target, b"abcd");
    assert_eq!(
        r,
        Err(NameTooLarge {
            static_array_size: 4,
            c_str_size: 5,
        })
    );
    assert_eq!(target, [7u8; 4]);
}

#[test]
fn write_keeps_bytes_after_terminator() {
    let mut target = [7u8; 6];
    write_c_str_slice_with_nul(&mut target, b"ab").unwrap();
    assert_eq!(target, [b'a', b'b', 0, 7, 7, 7]);
    assert_eq!(wrap_c_str_slice_until_nul(&target), Ok(&b"ab"[..]));
}

#[test]
fn decode_without_terminator_fails() {
    let buffer = [b'x'; 8];
    assert_eq!(wrap_c_str_slice_until_nul(&buffer), Err(NulNotFound));
    let mut profile = ProfileProperties::default();
    profile.profile_name = [b'x'; VP_MAX_PROFILE_NAME_SIZE];
    assert_eq!(profile.profile_name_as_c_str(), Err(NulNotFound));
}

#[test]
fn decode_stops_at_first_nul() {
    let buffer = [b'a', 0, b'b', 0];
    assert_eq!(wrap_c_str_slice_until_nul(&buffer), Ok(&b"a"[..]));
}

#[test]
fn profile_equality_is_name_and_version() {
    let a = ProfileProperties::default().profile_name(b"VP_a").unwrap();
    let b = ProfileProperties::default().profile_name(b"VP_a").unwrap();
    assert!(a == b);
    assert!(a != b.spec_version(2));
    assert!(a != ProfileProperties::default().profile_name(b"VP_b").unwrap());
}

#[test]
fn block_properties_builders() {
    let profile = ProfileProperties::default()
        .profile_name(b"VP_test_supported")
        .unwrap();
    let block = BlockProperties::default()
        .profiles(profile)
        .api_version(42)
        .block_name(b"baseline")
        .unwrap();
    assert!(block.profiles == profile);
    assert_eq!(block.api_version, 42);
    assert_eq!(block.block_name_as_c_str().unwrap(), b"baseline");
    let too_long = vec![b'b'; 300];
    assert_eq!(
        BlockProperties::default().block_name(&too_long).err(),
        Some(NameTooLarge {
            static_array_size: 256,
            c_str_size: 301,
        })
    );
}

#[test]
fn default_profile_and_block() {
    let profile = ProfileProperties::default();
    assert_eq!(profile.spec_version, 1);
    assert_eq!(profile.profile_name_as_c_str().unwrap(), b"");
    let block = BlockProperties::default();
    assert_eq!(block.api_version, 0);
    assert!(block.profiles == profile);
    assert_eq!(block.block_name_as_c_str().unwrap(), b"");
}

#[test]
fn video_profile_name_round_trip() {
    let video = VideoProfileProperties::default()
        .name(b"H.264 Decode (4:2:0 8-bit) Main progressive")
        .unwrap();
    assert_eq!(
        video.name_as_c_str().unwrap(),
        b"H.264 Decode (4:2:0 8-bit) Main progressive"
    );
    let too_long = vec![b'v'; VP_MAX_PROFILE_NAME_SIZE];
    assert!(VideoProfileProperties::default().name(&too_long).is_err());
}
