use loopdev::{
    device_major, fd_link_path, ioctl_to_error, keep_waiting, loop_device_path,
    AttachCommand, AttachOptions, IoctlArg, LoopRequest, LOOP_CLR_FD, LOOP_CTL_ADD,
    LOOP_CTL_GET_FREE, LOOP_PREFIX, LOOP_SET_CAPACITY, LOOP_SET_DIRECT_IO, LOOP_SET_FD,
    LOOP_SET_STATUS64, LO_FLAGS_AUTOCLEAR, LO_FLAGS_PARTSCAN, LO_FLAGS_READ_ONLY,
    WAIT_TIMEOUT_NANOS,
};
use std::io;

fn os_error(code: i32) -> io::Error {
    io::Error::from_raw_os_error(code)
}

fn is_ok(cmd: &AttachCommand) -> bool {
    matches!(cmd, AttachCommand::Finish(Ok(())))
}

fn finished_with_os_error(cmd: &AttachCommand, code: i32) -> bool {
    match cmd {
        AttachCommand::Finish(Err(e)) => e.raw_os_error() == Some(code),
        _ => false,
    }
}

#[test]
fn ioctl_to_error_negative_is_error() {
    assert!(ioctl_to_error(-1).is_err());
    assert!(ioctl_to_error(i32::MIN).is_err());
}

#[test]
fn ioctl_to_error_passes_non_negative_values() {
    assert_eq!(ioctl_to_error(0).unwrap(), 0);
    assert_eq!(ioctl_to_error(7).unwrap(), 7);
    assert_eq!(ioctl_to_error(i32::MAX).unwrap(), i32::MAX);
}

#[test]
fn new_options_are_all_zero() {
    let dev = ();
    let opts = AttachOptions::new(&dev);
    let info = opts.info();
    assert_eq!(info.lo_offset, 0);
    assert_eq!(info.lo_sizelimit, 0);
    assert_eq!(info.lo_flags, 0);
    assert_eq!(info.lo_number, 0);
    assert!(info.lo_file_name.iter().all(|b| *b == 0));
    assert!(info.lo_crypt_name.iter().all(|b| *b == 0));
    assert!(info.lo_encrypt_key.iter().all(|b| *b == 0));
    assert_eq!(info.lo_init, [0, 0]);
    assert!(!opts.direct_io());
}

#[test]
fn offset_and_size_limit_are_stored() {
    let dev = ();
    let opts = AttachOptions::new(&dev)
        .offset(512 * 1024 * 1024)
        .size_limit(1024 * 1024 * 1024);
    let info = opts.info();
    assert_eq!(info.lo_offset, 512 * 1024 * 1024);
    assert_eq!(info.lo_sizelimit, 1024 * 1024 * 1024);
    assert_eq!(info.lo_flags, 0);
}

#[test]
fn last_offset_wins() {
    let dev = ();
    let opts = AttachOptions::new(&dev).offset(1024).offset(4096);
    assert_eq!(opts.info().lo_offset, 4096);
}

#[test]
fn flag_setters_set_their_bits() {
    let dev = ();
    assert_eq!(AttachOptions::new(&dev).read_only(true).info().lo_flags, LO_FLAGS_READ_ONLY);
    assert_eq!(AttachOptions::new(&dev).autoclear(true).info().lo_flags, LO_FLAGS_AUTOCLEAR);
    assert_eq!(AttachOptions::new(&dev).part_scan(true).info().lo_flags, LO_FLAGS_PARTSCAN);
    assert_eq!(LO_FLAGS_READ_ONLY, 1);
    assert_eq!(LO_FLAGS_AUTOCLEAR, 4);
    assert_eq!(LO_FLAGS_PARTSCAN, 8);
}

#[test]
fn flag_setters_combine() {
    let dev = ();
    let opts = AttachOptions::new(&dev).part_scan(true).read_only(true).autoclear(true);
    assert_eq!(opts.info().lo_flags, 13);
    let opts = opts.read_only(false);
    assert_eq!(opts.info().lo_flags, 12);
}

#[test]
fn flag_switch_round_trip() {
    let dev = ();
    let opts = AttachOptions::new(&dev).autoclear(true);
    let before = opts.info().lo_flags;
    let opts = opts.part_scan(true).part_scan(false);
    assert_eq!(opts.info().lo_flags, before);
}

#[test]
fn flag_switches_commute() {
    let dev = ();
    let a = AttachOptions::new(&dev).read_only(true).autoclear(false).part_scan(true);
    let b = AttachOptions::new(&dev).part_scan(true).autoclear(false).read_only(true);
    assert_eq!(a.info().lo_flags, b.info().lo_flags);
}

#[test]
fn flag_last_switch_wins() {
    let dev = ();
    let opts = AttachOptions::new(&dev).read_only(true).read_only(false);
    assert_eq!(opts.info().lo_flags, 0);
    let opts = opts.read_only(false).read_only(true);
    assert_eq!(opts.info().lo_flags, LO_FLAGS_READ_ONLY);
}

#[test]
fn clearing_a_flag_keeps_other_bits() {
    let dev = ();
    let opts = AttachOptions::new(&dev).read_only(true).part_scan(true).autoclear(false);
    assert_eq!(opts.info().lo_flags, 9);
}

#[test]
fn set_direct_io_is_stored() {
    let dev = ();
    let opts = AttachOptions::new(&dev).set_direct_io(true);
    assert!(opts.direct_io());
    assert_eq!(opts.info().lo_flags, 0);
    assert!(!opts.set_direct_io(false).direct_io());
}

#[test]
fn attach_opens_writable_by_default() {
    let dev = ();
    let (_, cmd) = AttachOptions::new(&dev).attach();
    assert!(matches!(cmd, AttachCommand::OpenBackingFile { writable: true }));
}

#[test]
fn attach_opens_read_only_with_read_only_flag() {
    let dev = ();
    let (_, cmd) = AttachOptions::new(&dev).part_scan(true).read_only(true).attach();
    assert!(matches!(cmd, AttachCommand::OpenBackingFile { writable: false }));
}

#[test]
fn attach_runs_through_on_success() {
    let dev = 17u32;
    let opts = AttachOptions::new(&dev).offset(4096).part_scan(true);
    let (run, cmd) = opts.attach();
    assert_eq!(*run.device(), 17);
    assert!(matches!(cmd, AttachCommand::OpenBackingFile { writable: true }));
    let (run, cmd) = run.step(Ok(5));
    assert!(matches!(cmd, AttachCommand::Ioctl(LoopRequest::SetFd(5))));
    let (run, cmd) = run.step(Ok(0));
    match cmd {
        AttachCommand::Ioctl(LoopRequest::SetStatus64(info)) => {
            assert_eq!(info.lo_offset, 4096);
            assert_eq!(info.lo_flags, LO_FLAGS_PARTSCAN);
        }
        _ => panic!("expected LOOP_SET_STATUS64"),
    }
    let (_, cmd) = run.step(Ok(0));
    assert!(is_ok(&cmd));
}

#[test]
fn attach_with_direct_io_switches_it_on_last() {
    let dev = ();
    let (run, cmd) = AttachOptions::new(&dev).set_direct_io(true).attach_fd(9);
    assert!(matches!(cmd, AttachCommand::Ioctl(LoopRequest::SetFd(9))));
    let (run, cmd) = run.step(Ok(0));
    assert!(matches!(cmd, AttachCommand::Ioctl(LoopRequest::SetStatus64(_))));
    let (run, cmd) = run.step(Ok(0));
    assert!(matches!(cmd, AttachCommand::Ioctl(LoopRequest::SetDirectIo(true))));
    let (_, cmd) = run.step(Ok(0));
    assert!(is_ok(&cmd));
}

#[test]
fn attach_direct_io_failure_is_reported() {
    let dev = ();
    let (run, _) = AttachOptions::new(&dev).set_direct_io(true).attach_fd(9);
    let (run, _) = run.step(Ok(0));
    let (run, _) = run.step(Ok(0));
    let (_, cmd) = run.step(Err(os_error(22)));
    assert!(finished_with_os_error(&cmd, 22));
}

#[test]
fn attach_open_failure_ends_attach() {
    let dev = ();
    let (run, _) = AttachOptions::new(&dev).attach();
    let (_, cmd) = run.step(Err(os_error(2)));
    assert!(finished_with_os_error(&cmd, 2));
}

#[test]
fn attach_set_fd_failure_ends_attach() {
    let dev = ();
    let (run, _) = AttachOptions::new(&dev).attach_fd(4);
    let (_, cmd) = run.step(Err(os_error(16)));
    assert!(finished_with_os_error(&cmd, 16));
}

#[test]
fn attach_status_failure_is_rolled_back() {
    let dev = ();
    let (run, _) = AttachOptions::new(&dev).set_direct_io(true).attach_fd(4);
    let (run, _) = run.step(Ok(0));
    let (run, cmd) = run.step(Err(os_error(22)));
    assert!(matches!(cmd, AttachCommand::Ioctl(LoopRequest::ClrFd)));
    let (_, cmd) = run.step(Ok(0));
    assert!(finished_with_os_error(&cmd, 22));
}

#[test]
fn attach_rollback_keeps_status_error_when_detach_fails() {
    let dev = ();
    let (run, _) = AttachOptions::new(&dev).attach_fd(4);
    let (run, _) = run.step(Ok(0));
    let (run, _) = run.step(Err(os_error(22)));
    let (_, cmd) = run.step(Err(os_error(6)));
    assert!(finished_with_os_error(&cmd, 22));
}

#[test]
fn request_codes_match_the_kernel() {
    assert_eq!(LoopRequest::SetFd(3).code(), 0x4C00);
    assert_eq!(LoopRequest::ClrFd.code(), 0x4C01);
    let dev = ();
    let info = AttachOptions::new(&dev).info();
    assert_eq!(LoopRequest::SetStatus64(info).code(), 0x4C04);
    assert_eq!(LoopRequest::SetCapacity.code(), 0x4C07);
    assert_eq!(LoopRequest::SetDirectIo(true).code(), 0x4C08);
    assert_eq!(LoopRequest::CtlAdd(1).code(), 0x4C80);
    assert_eq!(LoopRequest::CtlGetFree.code(), 0x4C82);
    assert_eq!(LOOP_SET_FD, 0x4C00);
    assert_eq!(LOOP_CLR_FD, 0x4C01);
    assert_eq!(LOOP_SET_STATUS64, 0x4C04);
    assert_eq!(LOOP_SET_CAPACITY, 0x4C07);
    assert_eq!(LOOP_SET_DIRECT_IO, 0x4C08);
    assert_eq!(LOOP_CTL_ADD, 0x4C80);
    assert_eq!(LOOP_CTL_GET_FREE, 0x4C82);
}

#[test]
fn request_arguments() {
    assert!(matches!(LoopRequest::SetFd(3).arg(), IoctlArg::Int(3)));
    assert!(matches!(LoopRequest::ClrFd.arg(), IoctlArg::Int(0)));
    assert!(matches!(LoopRequest::SetCapacity.arg(), IoctlArg::Int(0)));
    assert!(matches!(LoopRequest::SetDirectIo(true).arg(), IoctlArg::Int(1)));
    assert!(matches!(LoopRequest::SetDirectIo(false).arg(), IoctlArg::Int(0)));
    assert!(matches!(LoopRequest::CtlAdd(12).arg(), IoctlArg::Int(12)));
    assert!(matches!(LoopRequest::CtlGetFree.arg(), IoctlArg::Nothing));
    let dev = ();
    let info = AttachOptions::new(&dev).offset(77).info();
    match LoopRequest::SetStatus64(info).arg() {
        IoctlArg::Info(i) => assert_eq!(i.lo_offset, 77),
        _ => panic!("expected the record"),
    }
}

#[test]
fn loop_device_paths() {
    assert_eq!(loop_device_path(LOOP_PREFIX, 0), "/dev/loop0");
    assert_eq!(loop_device_path(LOOP_PREFIX, 7), "/dev/loop7");
    assert_eq!(loop_device_path(LOOP_PREFIX, 123), "/dev/loop123");
    assert_eq!(loop_device_path(LOOP_PREFIX, 10), "/dev/loop10");
    assert_eq!(loop_device_path(LOOP_PREFIX, i32::MAX), "/dev/loop2147483647");
    assert_eq!(loop_device_path("/dev/block/loop", 3), "/dev/block/loop3");
}

#[test]
fn loop_device_paths_of_negative_numbers() {
    assert_eq!(loop_device_path(LOOP_PREFIX, -5), "/dev/loop-5");
    assert_eq!(loop_device_path(LOOP_PREFIX, i32::MIN), "/dev/loop-2147483648");
}

#[test]
fn loop_device_paths_are_distinct() {
    assert_ne!(loop_device_path(LOOP_PREFIX, 1), loop_device_path(LOOP_PREFIX, 10));
    assert_ne!(loop_device_path(LOOP_PREFIX, 12), loop_device_path(LOOP_PREFIX, 21));
}

#[test]
fn fd_link_paths() {
    assert_eq!(fd_link_path(3), "/proc/self/fd/3");
    assert_eq!(fd_link_path(1024), "/proc/self/fd/1024");
}

#[test]
fn major_numbers() {
    // The loop driver's block major is 7.
    assert_eq!(device_major(Ok(0x0700)).unwrap(), 7);
    assert_eq!(device_major(Ok(0x0705)).unwrap(), 7);
    // Major 259 (extended block devices), with a minor in the high bits.
    let dev: u64 = (259u64 << 8) | (0xfffffu64 & 0xff) | ((0xfffffu64 & 0xffff_ff00) << 12);
    assert_eq!(device_major(Ok(dev)).unwrap(), 259);
    // The widest 32-bit encoding: major 0xfff.
    let dev: u64 = u32::MAX as u64;
    assert_eq!(device_major(Ok(dev)).unwrap(), 0xfff);
}

#[test]
fn major_passes_errors_on() {
    assert_eq!(device_major(Err(os_error(9))).unwrap_err().raw_os_error(), Some(9));
}

#[test]
fn waiting_for_a_device_node() {
    assert!(keep_waiting(false, 0));
    assert!(keep_waiting(false, WAIT_TIMEOUT_NANOS));
    assert!(!keep_waiting(false, WAIT_TIMEOUT_NANOS + 1));
    assert!(!keep_waiting(true, 0));
    assert_eq!(WAIT_TIMEOUT_NANOS, 2_000_000_000);
}
