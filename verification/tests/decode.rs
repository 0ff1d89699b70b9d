//! Framing and decoding on synthetic event buffers.

use fanotify::safe;
use fanotify::sys;

/// One event record with the given prefix fields, `metadata_len` fixed at
/// the prefix width, padded with zero bytes up to `event_len` when it
/// declares more than the prefix.
fn record(event_len: u32, vers: u8, mask: u64, fd: i32, pid: i32) -> Vec<u8> {
    let mut v: Vec<u8> = Vec::new();
    v.extend_from_slice(&event_len.to_le_bytes());
    v.push(vers);
    v.push(0);
    v.extend_from_slice(&24u16.to_le_bytes());
    v.extend_from_slice(&mask.to_le_bytes());
    v.extend_from_slice(&fd.to_le_bytes());
    v.extend_from_slice(&pid.to_le_bytes());
    while v.len() < event_len as usize {
        v.push(0);
    }
    v
}

#[test]
fn empty_buffer_emits_nothing() {
    let buf: Vec<u8> = Vec::new();
    let events = safe::decode_events(&buf);
    assert_eq!(events.len(), 0);
}

#[test]
fn two_records_in_order() {
    let mut buf = record(24, 3, safe::FAN_OPEN, 11, 100);
    buf.extend_from_slice(&record(24, 3, safe::FAN_MODIFY, 12, 200));
    let events = safe::decode_events(&buf);
    assert_eq!(events.len(), 2);
    assert_eq!(events[0].mask, safe::FAN_OPEN);
    assert_eq!(events[0].fd, 11);
    assert_eq!(events[0].pid, 100);
    assert_eq!(events[1].mask, safe::FAN_MODIFY);
    assert_eq!(events[1].fd, 12);
    assert_eq!(events[1].pid, 200);
}

#[test]
fn undersized_record_emits_nothing() {
    // The single record declares event_len = 16, less than the prefix.
    let mut buf = record(24, 3, safe::FAN_OPEN, 5, 1);
    buf[0..4].copy_from_slice(&16u32.to_le_bytes());
    let events = safe::decode_events(&buf);
    assert_eq!(events.len(), 0);
}

#[test]
fn overlong_record_emits_nothing() {
    // The record declares more bytes than the buffer holds.
    let mut buf = record(24, 3, safe::FAN_OPEN, 5, 1);
    buf[0..4].copy_from_slice(&32u32.to_le_bytes());
    let events = safe::decode_events(&buf);
    assert_eq!(events.len(), 0);
}

#[test]
fn short_tail_discarded() {
    let mut buf = record(24, 3, safe::FAN_ACCESS, 7, 42);
    // A trailing fragment shorter than the prefix: dropped, no spurious event.
    buf.extend_from_slice(&[1, 2, 3, 4, 5, 6, 7, 8, 9, 10]);
    let events = safe::decode_events(&buf);
    assert_eq!(events.len(), 1);
    assert_eq!(events[0].mask, safe::FAN_ACCESS);
}

#[test]
fn trailing_record_bytes_skipped() {
    // The first record declares 32 bytes: the 8 past the prefix are
    // reserved and must be stepped over, not read as a record.
    let mut buf = record(32, 3, safe::FAN_CLOSE_WRITE, 3, 9);
    buf.extend_from_slice(&record(24, 3, safe::FAN_OPEN, 4, 10));
    let events = safe::decode_events(&buf);
    assert_eq!(events.len(), 2);
    assert_eq!(events[0].mask, safe::FAN_CLOSE_WRITE);
    assert_eq!(events[0].event_len, 32);
    assert_eq!(events[1].mask, safe::FAN_OPEN);
}

#[test]
fn composite_mask_single_event() {
    let buf = record(24, 3, safe::FAN_OPEN | safe::FAN_MODIFY, 6, 77);
    let events = safe::decode_events(&buf);
    assert_eq!(events.len(), 1);
    assert_eq!(events[0].mask, safe::FAN_OPEN | safe::FAN_MODIFY);
}

#[test]
fn prefix_fields_decoded_exactly() {
    // Write the prefix byte by byte and check every decoded field against
    // the little-endian values those bytes spell.
    let buf: Vec<u8> = vec![
        24, 0, 0, 0, // event_len
        3,  // vers
        0,  // reserved
        24, 0, // metadata_len
        0x01, 0x02, 0x03, 0x04, 0x05, 0x06, 0x07, 0x08, // mask
        0x2a, 0x00, 0x00, 0x00, // fd
        0x39, 0x05, 0x00, 0x00, // pid
    ];
    let events = safe::decode_events(&buf);
    assert_eq!(events.len(), 1);
    let ev = &events[0];
    assert_eq!(ev.event_len, 24);
    assert_eq!(ev.vers, 3);
    assert_eq!(ev.reserved, 0);
    assert_eq!(ev.metadata_len, 24);
    assert_eq!(ev.mask, 0x0807060504030201);
    assert_eq!(ev.fd, 42);
    assert_eq!(ev.pid, 1337);
}

#[test]
fn negative_fd_and_pid_decoded() {
    let buf = record(24, 3, 0x4000, -1, -5);
    let events = safe::decode_events(&buf);
    assert_eq!(events.len(), 1);
    assert_eq!(events[0].fd, -1);
    assert_eq!(events[0].pid, -5);
}

#[test]
fn framing_helpers_walk_to_buffer_end() {
    // fan_event_next composed once per record lands exactly on the end,
    // with nothing remaining.
    let mut buf = record(24, 3, safe::FAN_OPEN, 1, 1);
    buf.extend_from_slice(&record(32, 3, safe::FAN_MODIFY, 2, 2));
    let mut off: usize = 0;
    let mut remaining: usize = buf.len();
    assert!(sys::fan_event_ok(&buf, off, remaining));
    off = sys::fan_event_next(&buf, off, &mut remaining);
    assert_eq!(off, 24);
    assert_eq!(remaining, 32);
    assert!(sys::fan_event_ok(&buf, off, remaining));
    off = sys::fan_event_next(&buf, off, &mut remaining);
    assert_eq!(off, 56);
    assert_eq!(remaining, 0);
    assert!(!sys::fan_event_ok(&buf, off, remaining));
}

#[test]
fn event_ok_rejects_partial_prefix() {
    let buf: Vec<u8> = vec![24, 0, 0, 0, 3, 0];
    assert!(!sys::fan_event_ok(&buf, 0, buf.len()));
    let events = safe::decode_events(&buf);
    assert_eq!(events.len(), 0);
}

#[test]
fn read_event_meta_matches_record() {
    let buf = record(24, 3, safe::FAN_CLOSE_NOWRITE, 8, 4096);
    let meta = sys::read_event_meta(&buf, 0);
    assert_eq!(meta.event_len, 24);
    assert_eq!(meta.vers, 3);
    assert_eq!(meta.metadata_len, 24);
    assert_eq!(meta.mask, safe::FAN_CLOSE_NOWRITE);
    assert_eq!(meta.fd, 8);
    assert_eq!(meta.pid, 4096);
}
