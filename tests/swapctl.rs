use swapctl::{add_result, call_result, swapent, swapres, swaptbl, SwapCmd, SwapDevice, SwapError, N_SWAPENTS};

fn write_path(e: &mut swapent, path: &[u8]) {
    for (i, b) in path.iter().enumerate() {
        e.ste_path[i] = *b;
    }
    e.ste_path[path.len()] = 0;
}

fn filled_table(k: usize, paths: &[&[u8]]) -> swaptbl {
    let mut t = swaptbl::with_capacity(k);
    for (i, p) in paths.iter().enumerate() {
        write_path(&mut t.swt_ent[i], p);
        t.swt_ent[i].ste_start = 0;
        t.swt_ent[i].ste_length = 1 << 30;
        t.swt_ent[i].ste_pages = 262144 + i as libc::c_long;
        t.swt_ent[i].ste_free = 1000;
        t.swt_ent[i].ste_flags = 0;
    }
    t.swt_n = paths.len() as i32;
    t
}

#[test]
fn command_code_six_is_rejected() {
    assert_eq!(SwapCmd::from_code(6), Err(SwapError::InvalidCommand(6)));
}

#[test]
fn command_codes_outside_range_are_rejected() {
    assert_eq!(SwapCmd::from_code(0), Err(SwapError::InvalidCommand(0)));
    assert_eq!(SwapCmd::from_code(-1), Err(SwapError::InvalidCommand(-1)));
    assert_eq!(SwapCmd::from_code(i32::MAX), Err(SwapError::InvalidCommand(i32::MAX)));
}

#[test]
fn command_codes_round_trip() {
    assert_eq!(SwapCmd::from_code(1), Ok(SwapCmd::Add));
    assert_eq!(SwapCmd::from_code(2), Ok(SwapCmd::List));
    assert_eq!(SwapCmd::from_code(3), Ok(SwapCmd::Remove));
    assert_eq!(SwapCmd::from_code(4), Ok(SwapCmd::GetNSwp));
    assert_eq!(SwapCmd::from_code(5), Ok(SwapCmd::AInfo));
    for c in 1..=5 {
        assert_eq!(SwapCmd::from_code(c).unwrap().code(), c);
    }
}

#[test]
fn failed_count_call_carries_error_code() {
    assert_eq!(call_result(-1, libc::EPERM), Err(SwapError::Os(libc::EPERM)));
    assert_eq!(call_result(-1, libc::EINVAL), Err(SwapError::Os(libc::EINVAL)));
}

#[test]
fn successful_count_call_gives_count() {
    assert_eq!(call_result(0, 0), Ok(0));
    assert_eq!(call_result(2, 0), Ok(2));
    assert_eq!(call_result(-2, 0), Ok(u32::MAX - 1));
}

#[test]
fn aligned_add_request_is_laid_out() {
    let r = swapres::new("/dev/fake", 512, 1024).unwrap();
    assert_eq!(r.sr_name, b"/dev/fake\0".to_vec());
    assert_eq!(r.sr_start, 512);
    assert_eq!(r.sr_length, 1024);
}

#[test]
fn zero_start_and_length_are_aligned() {
    let r = swapres::new("/dev/zvol/dsk/rpool/swap", 0, 0).unwrap();
    assert_eq!(r.sr_name.len(), 25);
    assert_eq!(r.sr_name[24], 0);
}

#[test]
fn misaligned_start_is_rejected() {
    assert_eq!(swapres::new("/dev/fake", 513, 1024).unwrap_err(), SwapError::StartNotAligned(513));
    assert_eq!(swapres::new("/dev/fake", 1, 7).unwrap_err(), SwapError::StartNotAligned(1));
}

#[test]
fn misaligned_length_is_rejected() {
    assert_eq!(swapres::new("/dev/fake", 512, 1000).unwrap_err(), SwapError::LengthNotAligned(1000));
}

#[test]
fn misaligned_rejected_before_path_checks() {
    assert_eq!(swapres::new("", 100, 0).unwrap_err(), SwapError::StartNotAligned(100));
}

#[test]
fn empty_path_is_rejected() {
    assert_eq!(swapres::new("", 512, 1024).unwrap_err(), SwapError::EmptyPath);
}

#[test]
fn path_with_null_byte_is_rejected() {
    assert_eq!(swapres::new("/dev/\0fake", 512, 1024).unwrap_err(), SwapError::NulInPath(5));
    assert_eq!(swapres::new("\0", 0, 0).unwrap_err(), SwapError::NulInPath(0));
}

#[test]
fn start_beyond_signed_offset_is_rejected() {
    assert_eq!(swapres::new("/swap", 1u64 << 63, 512).unwrap_err(), SwapError::StartTooLarge(1u64 << 63));
}

#[test]
fn length_beyond_signed_offset_is_rejected() {
    assert_eq!(swapres::new("/swap", 512, u64::MAX - 511).unwrap_err(), SwapError::LengthTooLarge(u64::MAX - 511));
}

#[test]
fn largest_aligned_offset_is_kept() {
    let top = i64::MAX as u64 - 511;
    let r = swapres::new("/swap", top, top).unwrap();
    assert_eq!(r.sr_start, top as i64);
    assert_eq!(r.sr_length, top as i64);
}

#[test]
fn add_of_missing_path_surfaces_os_error() {
    let req = swapres::new("/dev/fake", 512, 1024);
    assert!(req.is_ok());
    assert_eq!(add_result(-1, libc::ENOENT), Err(SwapError::Os(libc::ENOENT)));
}

#[test]
fn add_result_reads_return_value() {
    assert_eq!(add_result(0, 0), Ok(()));
    assert_eq!(add_result(3, 0), Err(SwapError::UnexpectedReturn(3)));
}

#[test]
fn new_table_has_blank_slots() {
    let t = swaptbl::new();
    assert_eq!(t.swt_n, N_SWAPENTS as i32);
    assert_eq!(t.swt_ent.len(), N_SWAPENTS);
    for e in &t.swt_ent {
        assert_eq!(e.ste_path.len(), libc::PATH_MAX as usize);
        assert!(e.ste_path.iter().all(|b| *b == 0));
        assert_eq!((e.ste_start, e.ste_length, e.ste_pages, e.ste_free, e.ste_flags), (0, 0, 0, 0, 0));
    }
}

#[test]
fn default_slot_is_blank() {
    let e = swapent::default();
    assert_eq!(e.ste_path.len(), libc::PATH_MAX as usize);
    assert!(e.device().is_none());
}

#[test]
fn slot_device_reads_path_up_to_null() {
    let mut e = swapent::blank(8);
    e.ste_path[0] = b'/';
    e.ste_path[1] = b'a';
    e.ste_path[3] = b'z';
    e.ste_flags = 4;
    let d = e.device().unwrap();
    assert_eq!(d.path, b"/a".to_vec());
    assert_eq!(d.flags, 4);
}

#[test]
fn slot_without_null_has_no_device() {
    let mut e = swapent::blank(2);
    e.ste_path[0] = b'x';
    e.ste_path[1] = b'y';
    assert!(e.device().is_none());
}

#[test]
fn failed_listing_call_carries_error_code() {
    let t = swaptbl::new();
    assert_eq!(t.listing(1, -1, libc::EFAULT), Err(SwapError::Os(libc::EFAULT)));
}

#[test]
fn listing_with_no_devices_is_empty() {
    let mut t = swaptbl::new();
    t.swt_n = 0;
    assert_eq!(t.listing(0, 0, 0), Ok(vec![]));
}

#[test]
fn listing_reads_filled_slots() {
    let t = filled_table(N_SWAPENTS, &[b"/dev/dsk/swap0"]);
    let v = t.listing(1, 1, 0).unwrap();
    assert_eq!(
        v,
        vec![SwapDevice {
            path: b"/dev/dsk/swap0".to_vec(),
            start: 0,
            length: 1 << 30,
            pages: 262144,
            free: 1000,
            flags: 0,
        }]
    );
}

#[test]
fn listing_round_trip_with_exact_capacity() {
    for k in 0..=N_SWAPENTS {
        let paths: Vec<Vec<u8>> = (0..k).map(|i| format!("/dev/swap{}", i).into_bytes()).collect();
        let refs: Vec<&[u8]> = paths.iter().map(|p| p.as_slice()).collect();
        let t = filled_table(k, &refs);
        let v = t.listing(k as u32, k as i32, 0).unwrap();
        assert_eq!(v.len(), k);
        for (i, d) in v.iter().enumerate() {
            assert!(!d.path.is_empty());
            assert_eq!(d.path, paths[i]);
        }
    }
}

#[test]
fn listing_flags_more_devices_than_slots() {
    let t = filled_table(N_SWAPENTS, &[b"/a", b"/b", b"/c"]);
    match t.listing(4, 3, 0) {
        Err(SwapError::TooManyDevices { total, capacity, listed }) => {
            assert_eq!(total, 4);
            assert_eq!(capacity, N_SWAPENTS);
            assert_eq!(listed.len(), 3);
            assert_eq!(listed[2].path, b"/c".to_vec());
        },
        other => panic!("unexpected {:?}", other),
    }
}

#[test]
fn listing_never_reports_more_than_capacity() {
    let mut t = filled_table(2, &[b"/a", b"/b"]);
    t.swt_n = 5;
    match t.listing(0, 5, 0) {
        Err(SwapError::TooManyDevices { total, capacity, listed }) => {
            assert_eq!(total, 5);
            assert_eq!(capacity, 2);
            assert_eq!(listed.len(), 2);
        },
        other => panic!("unexpected {:?}", other),
    }
}

#[test]
fn listing_rejects_empty_filled_slot() {
    let mut t = filled_table(N_SWAPENTS, &[b"/a"]);
    t.swt_n = 2;
    assert_eq!(t.listing(2, 2, 0), Err(SwapError::MalformedEntry(1)));
}

#[test]
fn listing_rejects_unterminated_path() {
    let mut t = swaptbl::with_capacity(1);
    t.swt_ent[0].ste_path = vec![b'x'; 4];
    assert_eq!(t.listing(1, 1, 0), Err(SwapError::MalformedEntry(0)));
}

#[test]
fn listing_rejects_count_field_mismatch() {
    let t = filled_table(N_SWAPENTS, &[b"/a"]);
    assert_eq!(t.listing(1, 2, 0), Err(SwapError::CountMismatch { returned: 2, recorded: 1 }));
    let fresh = swaptbl::new();
    assert_eq!(fresh.listing(1, 1, 0), Err(SwapError::CountMismatch { returned: 1, recorded: 3 }));
}
