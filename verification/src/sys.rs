//! Kernel-facing definitions: the fanotify flag constants, the binary
//! layout of an event record, and the framing helpers that walk a packed
//! buffer of variable-length records.
//!
//! An event record starts with a fixed prefix of 24 bytes, laid out in
//! native (little-endian) byte order:
//! `event_len: u32`, `vers: u8`, `reserved: u8`, `metadata_len: u16`,
//! `mask: u64`, `fd: i32`, `pid: i32`. Successive records are contiguous;
//! the next record begins `event_len` bytes after the current one.

use vstd::prelude::*;

verus! {

/// File was accessed.
pub const FAN_ACCESS: u32 = 0x00000001;
/// File was modified.
pub const FAN_MODIFY: u32 = 0x00000002;
/// Writable file closed.
pub const FAN_CLOSE_WRITE: u32 = 0x00000008;
/// Unwritable file closed.
pub const FAN_CLOSE_NOWRITE: u32 = 0x00000010;
/// File was opened.
pub const FAN_OPEN: u32 = 0x00000020;
/// Event queue overflowed.
pub const FAN_Q_OVERFLOW: u32 = 0x00004000;
/// File open in permission check.
pub const FAN_OPEN_PERM: u32 = 0x00010000;
/// File accessed in permission check.
pub const FAN_ACCESS_PERM: u32 = 0x00020000;
/// Event occurred against a directory.
pub const FAN_ONDIR: u32 = 0x40000000;
/// Interested in events on children.
pub const FAN_EVENT_ON_CHILD: u32 = 0x08000000;
/// Close of any kind.
pub const FAN_CLOSE: u32 = FAN_CLOSE_WRITE | FAN_CLOSE_NOWRITE;

/// Flag for `fanotify_init`: close the group descriptor on exec.
pub const FAN_CLOEXEC: u32 = 0x00000001;
/// Flag for `fanotify_init`: reads on the group never block.
pub const FAN_NONBLOCK: u32 = 0x00000002;
/// Notification class: plain notification, no permission arbitration.
pub const FAN_CLASS_NOTIF: u32 = 0x00000000;
/// Notification class: content-access arbitration.
pub const FAN_CLASS_CONTENT: u32 = 0x00000004;
/// Notification class: pre-content arbitration.
pub const FAN_CLASS_PRE_CONTENT: u32 = 0x00000008;
/// Flag for `fanotify_init`: do not cap the event queue.
pub const FAN_UNLIMITED_QUEUE: u32 = 0x00000010;
/// Flag for `fanotify_init`: do not cap the number of marks.
pub const FAN_UNLIMITED_MARKS: u32 = 0x00000020;

/// Flag for `fanotify_mark`: add the mark.
pub const FAN_MARK_ADD: u32 = 0x00000001;
/// Flag for `fanotify_mark`: remove the mark.
pub const FAN_MARK_REMOVE: u32 = 0x00000002;
/// Flag for `fanotify_mark`: do not follow a symlink.
pub const FAN_MARK_DONT_FOLLOW: u32 = 0x00000004;
/// Flag for `fanotify_mark`: fail unless the path is a directory.
pub const FAN_MARK_ONLYDIR: u32 = 0x00000008;
/// Flag for `fanotify_mark`: mark the whole mount point.
pub const FAN_MARK_MOUNT: u32 = 0x00000010;
/// Flag for `fanotify_mark`: the mask is an ignore mask.
pub const FAN_MARK_IGNORED_MASK: u32 = 0x00000020;
/// Flag for `fanotify_mark`: the ignore mask survives modification.
pub const FAN_MARK_IGNORED_SURV_MODIFY: u32 = 0x00000040;
/// Flag for `fanotify_mark`: flush all marks of the given kind.
pub const FAN_MARK_FLUSH: u32 = 0x00000080;
/// Flag for `fanotify_mark`: mark the whole filesystem.
pub const FAN_MARK_FILESYSTEM: u32 = 0x00000100;

/// Userspace allows a permission event.
pub const FAN_ALLOW: u32 = 0x01;
/// Userspace denies a permission event.
pub const FAN_DENY: u32 = 0x02;
/// Sentinel descriptor: the event carries no descriptor.
pub const FAN_NOFD: i32 = -1;

/// The only metadata version this layer understands.
pub const FANOTIFY_METADATA_VERSION: u8 = 3;

/// Width in bytes of the fixed prefix of an event record.
pub const FAN_EVENT_METADATA_LEN: usize = 24;

/// The fixed prefix of one event record, as the kernel lays it out.
#[allow(non_camel_case_types)]
#[derive(Clone, Copy, Debug, PartialEq, Eq, Structural)]
pub struct fanotify_event_metadata {
    /// Total length of the record, prefix and trailing bytes together.
    pub event_len: u32,
    /// Metadata version; must equal `FANOTIFY_METADATA_VERSION`.
    pub vers: u8,
    /// Reserved; zero.
    pub reserved: u8,
    /// Length of the fixed metadata block.
    pub metadata_len: u16,
    /// Bitmask of the events this record reports.
    pub mask: u64,
    /// Kernel-issued descriptor for the accessed object.
    pub fd: i32,
    /// Process id that triggered the event.
    pub pid: i32,
}

/// A response record, written back to the group for permission events.
#[allow(non_camel_case_types)]
#[derive(Clone, Copy, Debug, PartialEq, Eq, Structural)]
pub struct fanotify_response {
    /// Descriptor taken from the permission event.
    pub fd: i32,
    /// `FAN_ALLOW` or `FAN_DENY`.
    pub response: u32,
}

/// The little-endian 16-bit value stored at byte offset `off` of `b`.
pub open spec fn le_u16_at(b: Seq<u8>, off: int) -> u16
    recommends
        0 <= off,
        off + 2 <= b.len(),
{
    (b[off] + b[off + 1] * 0x100) as u16
}

/// The little-endian 32-bit value stored at byte offset `off` of `b`.
pub open spec fn le_u32_at(b: Seq<u8>, off: int) -> u32
    recommends
        0 <= off,
        off + 4 <= b.len(),
{
    (b[off] + b[off + 1] * 0x100 + b[off + 2] * 0x1_0000 + b[off + 3] * 0x100_0000) as u32
}

/// The little-endian 64-bit value stored at byte offset `off` of `b`.
pub open spec fn le_u64_at(b: Seq<u8>, off: int) -> u64
    recommends
        0 <= off,
        off + 8 <= b.len(),
{
    (b[off] + b[off + 1] * 0x100 + b[off + 2] * 0x1_0000 + b[off + 3] * 0x100_0000
        + b[off + 4] * 0x1_0000_0000 + b[off + 5] * 0x100_0000_0000
        + b[off + 6] * 0x1_0000_0000_0000 + b[off + 7] * 0x100_0000_0000_0000) as u64
}

/// The record prefix that starts at byte offset `off` of `b`.
pub open spec fn parse_meta(b: Seq<u8>, off: int) -> fanotify_event_metadata
    recommends
        0 <= off,
        off + 24 <= b.len(),
{
    fanotify_event_metadata {
        event_len: le_u32_at(b, off),
        vers: b[off + 4],
        reserved: b[off + 5],
        metadata_len: le_u16_at(b, off + 6),
        mask: le_u64_at(b, off + 8),
        fd: le_u32_at(b, off + 16) as i32,
        pid: le_u32_at(b, off + 20) as i32,
    }
}

/// A whole record may be taken from offset `off`: the remaining bytes hold
/// a full prefix, and the record's own length is at least the prefix and at
/// most what remains.
pub open spec fn event_ok_at(b: Seq<u8>, off: int) -> bool {
    &&& off + 24 <= b.len()
    &&& 24 <= le_u32_at(b, off)
    &&& le_u32_at(b, off) <= b.len() - off
}

/// The record prefixes framed out of `b` from offset `off` on, in byte
/// order: one prefix per acceptable record, stopping at the first record
/// that `event_ok_at` rejects.
pub open spec fn decode_from(b: Seq<u8>, off: int) -> Seq<fanotify_event_metadata>
    recommends
        0 <= off <= b.len(),
    decreases b.len() - off,
{
    if 0 <= off && event_ok_at(b, off) {
        seq![parse_meta(b, off)] + decode_from(b, off + le_u32_at(b, off))
    } else {
        seq![]
    }
}

/// The record prefixes framed out of all of `b`, in byte order.
pub open spec fn decode(b: Seq<u8>) -> Seq<fanotify_event_metadata> {
    decode_from(b, 0)
}

/// From offset `off` on, `b` is a whole number of acceptable records with
/// nothing left over.
pub open spec fn well_formed_from(b: Seq<u8>, off: int) -> bool
    decreases b.len() - off,
{
    if off == b.len() {
        true
    } else if 0 <= off < b.len() && event_ok_at(b, off) {
        well_formed_from(b, off + le_u32_at(b, off))
    } else {
        false
    }
}

/// `b` is exactly a concatenation of acceptable records.
pub open spec fn well_formed(b: Seq<u8>) -> bool {
    well_formed_from(b, 0)
}

/// How many acceptable records framing visits from offset `off` on.
pub open spec fn record_count_from(b: Seq<u8>, off: int) -> nat
    decreases b.len() - off,
{
    if 0 <= off && event_ok_at(b, off) {
        1 + record_count_from(b, off + le_u32_at(b, off))
    } else {
        0
    }
}

/// How many acceptable records framing visits in all of `b`.
pub open spec fn record_count(b: Seq<u8>) -> nat {
    record_count_from(b, 0)
}

/// The offset reached from `off` by stepping over `k` records, each step
/// adding the record's own `event_len` — `fan_event_next` composed `k`
/// times.
pub open spec fn advance(b: Seq<u8>, off: int, k: nat) -> int
    decreases k,
{
    if k == 0 {
        off
    } else {
        advance(b, off + le_u32_at(b, off), (k - 1) as nat)
    }
}

/// A record whose declared length is shorter than the fixed prefix or
/// longer than what remains of the buffer ends framing at once: nothing is
/// emitted for it, nor for anything after it.
pub proof fn lemma_bad_length_emits_nothing(b: Seq<u8>, off: int)
    requires
        0 <= off <= b.len(),
        le_u32_at(b, off) < 24 || b.len() - off < le_u32_at(b, off),
    ensures
        decode_from(b, off) == Seq::<fanotify_event_metadata>::empty(),
{
    assert(!event_ok_at(b, off));
    assert(decode_from(b, off) =~= Seq::<fanotify_event_metadata>::empty());
}

/// Framing a buffer that is exactly a concatenation of acceptable records
/// emits one event per record and consumes the buffer to its end: stepping
/// over as many records as it emits lands exactly on `b.len()`, that is,
/// with nothing remaining.
pub proof fn lemma_well_formed_framing(b: Seq<u8>, off: int)
    requires
        0 <= off <= b.len(),
        well_formed_from(b, off),
    ensures
        decode_from(b, off).len() == record_count_from(b, off),
        advance(b, off, record_count_from(b, off)) == b.len(),
    decreases b.len() - off,
{
    if off == b.len() {
        assert(!event_ok_at(b, off));
    } else {
        let next = off + le_u32_at(b, off);
        lemma_well_formed_framing(b, next);
    }
}

/// The event at position `i` of the framed sequence is exactly the record
/// prefix found `i` record-steps into the buffer: framing preserves the
/// byte order of the records.
pub proof fn lemma_decode_order(b: Seq<u8>, off: int, i: int)
    requires
        0 <= off <= b.len(),
        0 <= i < decode_from(b, off).len(),
    ensures
        event_ok_at(b, advance(b, off, i as nat)),
        decode_from(b, off)[i] == parse_meta(b, advance(b, off, i as nat)),
    decreases i,
{
    assert(event_ok_at(b, off));
    let next = off + le_u32_at(b, off);
    if i > 0 {
        lemma_decode_order(b, next, i - 1);
        assert(advance(b, off, i as nat) == advance(b, next, (i - 1) as nat));
    }
}

/// The prefix parsed at `off` reads only bytes of `b` when the record lies
/// within `b`, so appending `t` changes nothing about it.
proof fn lemma_parse_ignores_tail(b: Seq<u8>, t: Seq<u8>, off: int)
    requires
        0 <= off,
        off + 24 <= b.len(),
    ensures
        le_u32_at(b + t, off) == le_u32_at(b, off),
        parse_meta(b + t, off) == parse_meta(b, off),
{
    assert((b + t)[off] == b[off]);
    assert((b + t)[off + 1] == b[off + 1]);
    assert((b + t)[off + 2] == b[off + 2]);
    assert((b + t)[off + 3] == b[off + 3]);
    assert((b + t)[off + 4] == b[off + 4]);
    assert((b + t)[off + 5] == b[off + 5]);
    assert((b + t)[off + 6] == b[off + 6]);
    assert((b + t)[off + 7] == b[off + 7]);
    assert((b + t)[off + 8] == b[off + 8]);
    assert((b + t)[off + 9] == b[off + 9]);
    assert((b + t)[off + 10] == b[off + 10]);
    assert((b + t)[off + 11] == b[off + 11]);
    assert((b + t)[off + 12] == b[off + 12]);
    assert((b + t)[off + 13] == b[off + 13]);
    assert((b + t)[off + 14] == b[off + 14]);
    assert((b + t)[off + 15] == b[off + 15]);
    assert((b + t)[off + 16] == b[off + 16]);
    assert((b + t)[off + 17] == b[off + 17]);
    assert((b + t)[off + 18] == b[off + 18]);
    assert((b + t)[off + 19] == b[off + 19]);
    assert((b + t)[off + 20] == b[off + 20]);
    assert((b + t)[off + 21] == b[off + 21]);
    assert((b + t)[off + 22] == b[off + 22]);
    assert((b + t)[off + 23] == b[off + 23]);
}

/// A trailing fragment shorter than the fixed prefix is discarded: framing
/// a well-formed buffer with such a tail appended emits exactly the events
/// of the well-formed part and nothing for the tail.
pub proof fn lemma_short_tail_discarded(b: Seq<u8>, t: Seq<u8>, off: int)
    requires
        0 <= off <= b.len(),
        well_formed_from(b, off),
        t.len() < 24,
    ensures
        decode_from(b + t, off) == decode_from(b, off),
    decreases b.len() - off,
{
    if off == b.len() {
        assert((b + t).len() - off < 24);
        assert(!event_ok_at(b + t, off));
        assert(!event_ok_at(b, off));
        assert(decode_from(b + t, off) =~= decode_from(b, off));
    } else {
        assert(event_ok_at(b, off));
        lemma_parse_ignores_tail(b, t, off);
        let next = off + le_u32_at(b, off);
        assert(event_ok_at(b + t, off));
        lemma_short_tail_discarded(b, t, next);
        assert(decode_from(b + t, off) =~= decode_from(b, off));
    }
}

/// A buffer that is exactly one acceptable record frames to exactly one
/// event, carrying that record's mask whole — several bits set in the mask
/// make one event with the composite mask, never several events.
pub proof fn lemma_single_record_single_event(b: Seq<u8>)
    requires
        24 <= le_u32_at(b, 0),
        le_u32_at(b, 0) == b.len(),
    ensures
        decode(b).len() == 1,
        decode(b)[0].mask == le_u64_at(b, 8),
        decode(b)[0] == parse_meta(b, 0),
{
    assert(event_ok_at(b, 0));
    let next = 0 + le_u32_at(b, 0);
    assert(!event_ok_at(b, next));
    assert(decode_from(b, next) =~= Seq::<fanotify_event_metadata>::empty());
}

fn read_le_u16(buf: &Vec<u8>, off: usize) -> (r: u16)
    requires
        off + 2 <= buf.len(),
    ensures
        r == le_u16_at(buf@, off as int),
{
    let b0 = buf[off] as u16;
    let b1 = buf[off + 1] as u16;
    b0 + b1 * 0x100
}

fn read_le_u32(buf: &Vec<u8>, off: usize) -> (r: u32)
    requires
        off + 4 <= buf.len(),
    ensures
        r == le_u32_at(buf@, off as int),
{
    let b0 = buf[off] as u32;
    let b1 = buf[off + 1] as u32;
    let b2 = buf[off + 2] as u32;
    let b3 = buf[off + 3] as u32;
    b0 + b1 * 0x100 + b2 * 0x1_0000 + b3 * 0x100_0000
}

fn read_le_u64(buf: &Vec<u8>, off: usize) -> (r: u64)
    requires
        off + 8 <= buf.len(),
    ensures
        r == le_u64_at(buf@, off as int),
{
    let b0 = buf[off] as u64;
    let b1 = buf[off + 1] as u64;
    let b2 = buf[off + 2] as u64;
    let b3 = buf[off + 3] as u64;
    let b4 = buf[off + 4] as u64;
    let b5 = buf[off + 5] as u64;
    let b6 = buf[off + 6] as u64;
    let b7 = buf[off + 7] as u64;
    b0 + b1 * 0x100 + b2 * 0x1_0000 + b3 * 0x100_0000 + b4 * 0x1_0000_0000
        + b5 * 0x100_0000_0000 + b6 * 0x1_0000_0000_0000 + b7 * 0x100_0000_0000_0000
}

/// Decode the fixed record prefix that starts at byte offset `off`.
pub fn read_event_meta(buf: &Vec<u8>, off: usize) -> (meta: fanotify_event_metadata)
    requires
        off + 24 <= buf.len(),
    ensures
        meta == parse_meta(buf@, off as int),
{
    fanotify_event_metadata {
        event_len: read_le_u32(buf, off),
        vers: buf[off + 4],
        reserved: buf[off + 5],
        metadata_len: read_le_u16(buf, off + 6),
        mask: read_le_u64(buf, off + 8),
        fd: #[verifier::truncate] (read_le_u32(buf, off + 16) as i32),
        pid: #[verifier::truncate] (read_le_u32(buf, off + 20) as i32),
    }
}

/// A whole record may be taken at `off`: `remaining` holds a full prefix,
/// and the record's declared length is at least the prefix and at most
/// `remaining`. A false answer ends the iteration.
pub fn fan_event_ok(buf: &Vec<u8>, off: usize, remaining: usize) -> (r: bool)
    requires
        off + remaining == buf.len(),
    ensures
        r == event_ok_at(buf@, off as int),
{
    if remaining >= FAN_EVENT_METADATA_LEN {
        let event_len = read_le_u32(buf, off);
        event_len as usize >= FAN_EVENT_METADATA_LEN && event_len as usize <= remaining
    } else {
        false
    }
}

/// Step over the record at `off`: debit its `event_len` from `remaining`
/// and return the offset of the next record.
pub fn fan_event_next(buf: &Vec<u8>, off: usize, remaining: &mut usize) -> (next: usize)
    requires
        off + *old(remaining) == buf.len(),
        event_ok_at(buf@, off as int),
    ensures
        next == off + le_u32_at(buf@, off as int),
        next + *final(remaining) == buf.len(),
        *final(remaining) == *old(remaining) - le_u32_at(buf@, off as int),
{
    let event_len = read_le_u32(buf, off) as usize;
    *remaining = *remaining - event_len;
    off + event_len
}

} // verus!
