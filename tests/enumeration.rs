use vp_ash::entry::{Entry, EntryPoint};
use vp_ash::enumerate::{read_all_step, read_all_with_flag_step, Progress, Reply, Request};
use vp_ash::status::{ResultCode, VkResult, INCOMPLETE, SUCCESS};
use vp_ash::vp::video_queue::{self, VideoProfileProperties};
use vp_ash::vp::{self, BlockProperties, ProfileProperties};

/// A list query that keeps to the convention: at its `call`-th call it holds
/// `size(call)` of `items`, and writes `flag(call)`.
struct Stub<T: Clone> {
    items: Vec<T>,
    size: fn(usize) -> usize,
    flag: fn(usize) -> u32,
    calls: usize,
}

impl<T: Clone> Stub<T> {
    fn call(&mut self, request: Request) -> (Reply<Vec<T>>, u32) {
        let n = (self.size)(self.calls);
        let flag = (self.flag)(self.calls);
        self.calls += 1;
        let reply = match request {
            Request::Count => Reply::Counted {
                status: ResultCode::from_raw(SUCCESS),
                count: n as u32,
            },
            Request::Fill { capacity } => {
                let capacity = capacity as usize;
                if n > capacity {
                    Reply::Filled {
                        status: ResultCode::from_raw(INCOMPLETE),
                        records: self.items[..capacity].to_vec(),
                    }
                } else {
                    Reply::Filled {
                        status: ResultCode::from_raw(SUCCESS),
                        records: self.items[..n].to_vec(),
                    }
                }
            }
        };
        (reply, flag)
    }
}

fn read_all<T: Clone>(stub: &mut Stub<T>) -> VkResult<Vec<T>> {
    let mut request = Request::Count;
    loop {
        let (reply, _) = stub.call(request);
        match read_all_step(request, reply) {
            Progress::Call(next) => request = next,
            Progress::Finished(result) => return result,
        }
    }
}

fn read_all_with_flag<T: Clone>(stub: &mut Stub<T>) -> VkResult<(Vec<T>, bool)> {
    let mut request = Request::Count;
    loop {
        let (reply, flag) = stub.call(request);
        match read_all_with_flag_step(request, reply, flag) {
            Progress::Call(next) => request = next,
            Progress::Finished(result) => return result,
        }
    }
}

fn no_flag(_: usize) -> u32 {
    0
}

#[test]
fn stable_count_reads_in_two_calls() {
    let mut stub = Stub {
        items: vec![10u32, 20, 30],
        size: |_| 3,
        flag: no_flag,
        calls: 0,
    };
    assert_eq!(read_all(&mut stub), Ok(vec![10, 20, 30]));
    assert_eq!(stub.calls, 2);
}

#[test]
fn empty_list_reads_in_two_calls() {
    let mut stub = Stub {
        items: Vec::<u32>::new(),
        size: |_| 0,
        flag: no_flag,
        calls: 0,
    };
    assert_eq!(read_all(&mut stub), Ok(vec![]));
    assert_eq!(stub.calls, 2);
}

#[test]
fn growing_count_reads_in_k_plus_one_calls() {
    // The count grows by one at each call up to 5, then stays.
    let mut stub = Stub {
        items: vec![1u32, 2, 3, 4, 5],
        size: |call| (call + 1).min(5),
        flag: no_flag,
        calls: 0,
    };
    assert_eq!(read_all(&mut stub), Ok(vec![1, 2, 3, 4, 5]));
    assert_eq!(stub.calls, 6);
}

#[test]
fn fill_asks_for_the_count_just_reported() {
    let first = read_all_step::<u8>(
        Request::Count,
        Reply::Counted {
            status: ResultCode::from_raw(SUCCESS),
            count: 7,
        },
    );
    assert!(matches!(first, Progress::Call(Request::Fill { capacity: 7 })));
    let again = read_all_step(
        Request::Fill { capacity: 7 },
        Reply::Filled {
            status: ResultCode::from_raw(INCOMPLETE),
            records: vec![0u8; 7],
        },
    );
    assert!(matches!(again, Progress::Call(Request::Count)));
}

#[test]
fn failed_count_ends_the_query() {
    let r = read_all_step::<u8>(
        Request::Count,
        Reply::Counted {
            status: ResultCode::from_raw(-1),
            count: 3,
        },
    );
    assert!(matches!(r, Progress::Finished(Err(ResultCode { raw: -1 }))));
    // A count answered with VK_INCOMPLETE is no success either.
    let r = read_all_step::<u8>(
        Request::Count,
        Reply::Counted {
            status: ResultCode::from_raw(INCOMPLETE),
            count: 3,
        },
    );
    assert!(matches!(r, Progress::Finished(Err(ResultCode { raw: 5 }))));
}

#[test]
fn failed_fill_ends_the_query() {
    let r = read_all_step(
        Request::Fill { capacity: 2 },
        Reply::Filled {
            status: ResultCode::from_raw(-13),
            records: vec![1u8],
        },
    );
    assert!(matches!(r, Progress::Finished(Err(ResultCode { raw: -13 }))));
}

#[test]
fn flag_comes_from_the_final_call() {
    // The count grows once; the first round writes VK_TRUE, the last VK_FALSE.
    let mut stub = Stub {
        items: vec!['a', 'b'],
        size: |call| if call == 0 { 1 } else { 2 },
        flag: |call| if call < 2 { 1 } else { 0 },
        calls: 0,
    };
    assert_eq!(read_all_with_flag(&mut stub), Ok((vec!['a', 'b'], false)));
    assert_eq!(stub.calls, 4);

    let mut stub = Stub {
        items: vec!['a', 'b'],
        size: |call| if call == 0 { 1 } else { 2 },
        flag: |call| if call < 2 { 0 } else { 1 },
        calls: 0,
    };
    assert_eq!(read_all_with_flag(&mut stub), Ok((vec!['a', 'b'], true)));
}

fn supported_profile() -> ProfileProperties {
    ProfileProperties::default()
        .profile_name(b"VP_test_supported")
        .unwrap()
        .spec_version(1)
}

#[test]
fn profiles_of_a_stub_library() {
    let entry = Entry::linked();
    assert_eq!(entry.fp().create_capabilities, EntryPoint::CreateCapabilities);
    let capabilities = entry
        .create_capabilities(ResultCode::from_raw(SUCCESS), vp::Capabilities::from_raw(0x1000))
        .unwrap();
    assert_eq!(capabilities.handle(), vp::Capabilities::from_raw(0x1000));
    assert_eq!(capabilities.fp().get_profiles, EntryPoint::GetProfiles);

    let mut profiles = Stub {
        items: vec![supported_profile()],
        size: |_| 1,
        flag: no_flag,
        calls: 0,
    };
    let mut request = Request::Count;
    let listed = loop {
        let (reply, _) = profiles.call(request);
        match capabilities.get_profiles(request, reply) {
            Progress::Call(next) => request = next,
            Progress::Finished(result) => break result.unwrap(),
        }
    };
    assert_eq!(listed.len(), 1);
    assert!(listed[0] == supported_profile());
    assert_eq!(listed[0].profile_name_as_c_str().unwrap(), b"VP_test_supported");
    assert_eq!(listed[0].spec_version, 1);

    let mut required = Stub {
        items: Vec::<ProfileProperties>::new(),
        size: |_| 0,
        flag: no_flag,
        calls: 0,
    };
    let mut request = Request::Count;
    let listed = loop {
        let (reply, _) = required.call(request);
        match capabilities.get_profile_required_profiles(request, reply) {
            Progress::Call(next) => request = next,
            Progress::Finished(result) => break result.unwrap(),
        }
    };
    assert!(listed.is_empty());
}

#[test]
fn failed_creation_gives_no_capabilities() {
    let entry = Entry::linked();
    let r = entry.create_capabilities(ResultCode::from_raw(-3), vp::Capabilities::null());
    assert_eq!(r.err(), Some(ResultCode::from_raw(-3)));
}

#[test]
fn support_flags() {
    let capabilities = Entry::linked()
        .create_capabilities(ResultCode::from_raw(SUCCESS), vp::Capabilities::from_raw(1))
        .unwrap();
    assert_eq!(
        capabilities.get_instance_profile_support(ResultCode::from_raw(SUCCESS), 1),
        Ok(true)
    );
    assert_eq!(
        capabilities.get_physical_device_profile_support(ResultCode::from_raw(SUCCESS), 0),
        Ok(false)
    );
    assert_eq!(
        capabilities.has_multiple_variants_profile(ResultCode::from_raw(-2), 1),
        Err(ResultCode::from_raw(-2))
    );
}

#[test]
fn variants_support_lists_blocks() {
    let capabilities = Entry::linked()
        .create_capabilities(ResultCode::from_raw(SUCCESS), vp::Capabilities::from_raw(1))
        .unwrap();
    let block = BlockProperties::default()
        .profiles(supported_profile())
        .block_name(b"baseline")
        .unwrap();
    let mut stub = Stub {
        items: vec![block],
        size: |_| 1,
        flag: |_| 1,
        calls: 0,
    };
    let mut request = Request::Count;
    let (blocks, supported) = loop {
        let (reply, flag) = stub.call(request);
        match capabilities.get_instance_profile_variants_support(request, reply, flag) {
            Progress::Call(next) => request = next,
            Progress::Finished(result) => break result.unwrap(),
        }
    };
    assert!(supported);
    assert_eq!(blocks.len(), 1);
    assert!(blocks[0] == block);
}

#[test]
fn video_profiles_of_a_stub_library() {
    let video = video_queue::Capabilities::linked(vp::Capabilities::from_raw(2));
    assert_eq!(video.handle(), vp::Capabilities::from_raw(2));
    assert_eq!(video.fp().get_profile_video_profiles, EntryPoint::GetProfileVideoProfiles);
    let profile = VideoProfileProperties::default()
        .name(b"H.264 Decode (4:2:0 8-bit) Main progressive")
        .unwrap();
    let mut stub = Stub {
        items: vec![profile],
        size: |_| 1,
        flag: no_flag,
        calls: 0,
    };
    let mut request = Request::Count;
    let listed = loop {
        let (reply, _) = stub.call(request);
        match video.get_profile_video_profiles(request, reply) {
            Progress::Call(next) => request = next,
            Progress::Finished(result) => break result.unwrap(),
        }
    };
    assert_eq!(listed.len(), 1);
    assert_eq!(
        listed[0].name_as_c_str().unwrap(),
        b"H.264 Decode (4:2:0 8-bit) Main progressive"
    );
}
