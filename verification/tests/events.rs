//! The queue classification, decoded-event construction, path helpers,
//! and the group handle.

use fanotify::safe;
use fanotify::safe::FanError;
use fanotify::sys;

fn meta(vers: u8, mask: u64, fd: i32, pid: i32) -> sys::fanotify_event_metadata {
    sys::fanotify_event_metadata {
        event_len: 24,
        vers,
        reserved: 0,
        metadata_len: 24,
        mask,
        fd,
        pid,
    }
}

#[test]
fn empty_queue_is_an_error() {
    assert_eq!(safe::check_queue(0), Err(FanError::EmptyQueue));
}

#[test]
fn nonempty_queue_passes_through() {
    assert_eq!(safe::check_queue(1), Ok(1));
    assert_eq!(safe::check_queue(4096), Ok(4096));
}

#[test]
fn event_built_from_current_version_record() {
    let m = meta(3, safe::FAN_OPEN, 9, 321);
    let ev = safe::FanotifyEv::from_fanotify_event_metadata(&m, String::from("/tmp/t"))
        .expect("version 3 must decode");
    assert_eq!(ev.filename, "/tmp/t");
    assert_eq!(ev.mask, safe::FAN_OPEN);
    assert_eq!(ev.fd, 9);
    assert_eq!(ev.pid, 321);
}

#[test]
fn event_rejected_on_version_mismatch() {
    let m = meta(2, safe::FAN_OPEN, 9, 321);
    let r = safe::FanotifyEv::from_fanotify_event_metadata(&m, String::from("/tmp/t"));
    assert_eq!(r.err(), Some(FanError::InvalidEvent));
}

#[test]
fn c_path_gets_nul_terminator() {
    let path: Vec<u8> = b"/tmp/watched".to_vec();
    let c = safe::c_path_bytes(&path).expect("clean path must convert");
    assert_eq!(c, b"/tmp/watched\0".to_vec());
}

#[test]
fn empty_c_path_is_just_the_terminator() {
    let path: Vec<u8> = Vec::new();
    let c = safe::c_path_bytes(&path).expect("empty path must convert");
    assert_eq!(c, vec![0u8]);
}

#[test]
fn interior_nul_rejected() {
    let path: Vec<u8> = b"/tmp/\0oops".to_vec();
    assert_eq!(safe::c_path_bytes(&path), Err(FanError::InvalidPath));
}

#[test]
fn proc_path_for_small_fd() {
    assert_eq!(safe::proc_fd_path(5), b"/proc/self/fd/5".to_vec());
    assert_eq!(safe::proc_fd_path(0), b"/proc/self/fd/0".to_vec());
}

#[test]
fn proc_path_for_multidigit_fd() {
    assert_eq!(safe::proc_fd_path(1234567), b"/proc/self/fd/1234567".to_vec());
    assert_eq!(safe::proc_fd_path(i32::MAX), b"/proc/self/fd/2147483647".to_vec());
}

#[test]
fn proc_path_for_negative_fd() {
    assert_eq!(safe::proc_fd_path(-1), b"/proc/self/fd/-1".to_vec());
    assert_eq!(safe::proc_fd_path(i32::MIN), b"/proc/self/fd/-2147483648".to_vec());
}

#[test]
fn group_handle_keeps_its_parts() {
    let g = safe::Fanotify::new(7, true);
    assert_eq!(g.fd, 7);
    assert!(g.is_blocking());
    let g = safe::Fanotify::new(8, false);
    assert_eq!(g.fd, 8);
    assert!(!g.is_blocking());
}

#[test]
fn flag_values_match_the_kernel_interface() {
    assert_eq!(sys::FAN_CLOSE, sys::FAN_CLOSE_WRITE | sys::FAN_CLOSE_NOWRITE);
    assert_eq!(sys::FAN_CLASS_NOTIF | sys::FAN_UNLIMITED_QUEUE | sys::FAN_UNLIMITED_MARKS, 0x30);
    assert_eq!(sys::FAN_NONBLOCK | sys::FAN_UNLIMITED_QUEUE | sys::FAN_UNLIMITED_MARKS, 0x32);
    assert_eq!(safe::AT_FDCWD, -100);
    assert_eq!(sys::FANOTIFY_METADATA_VERSION, 3);
}
