//! The safe layer: the group handle, the decoded event value, and the
//! verified compute steps of event delivery — queue classification,
//! buffer decoding, path-string construction, and C-path validation.
//!
//! The syscalls themselves (`fanotify_init`, `fanotify_mark`, `read`,
//! `close`, `ioctl`, `readlink`) are left to an unverified I/O layer,
//! which hands this module plain values and takes plain values back.

use vstd::prelude::*;

use crate::sys;
use crate::sys::fanotify_event_metadata;

verus! {

/// File was accessed.
pub const FAN_ACCESS: u64 = 0x1;
/// File was modified.
pub const FAN_MODIFY: u64 = 0x2;
/// Writable file closed.
pub const FAN_CLOSE_WRITE: u64 = 0x8;
/// Unwritable file closed.
pub const FAN_CLOSE_NOWRITE: u64 = 0x10;
/// File was opened.
pub const FAN_OPEN: u64 = 0x20;
/// The only directory descriptor this layer ever passes to the kernel.
pub const AT_FDCWD: i32 = -100;

/// Flag for `fanotify_mark`: add the mark.
pub const FAN_MARK_ADD: u32 = 0x00000001;
/// Flag for `fanotify_mark`: remove the mark.
pub const FAN_MARK_REMOVE: u32 = 0x00000002;
/// Flag for `fanotify_mark`: do not follow a symlink.
pub const FAN_MARK_DONT_FOLLOW: u32 = 0x00000004;
/// Flag for `fanotify_mark`: fail unless the path is a directory.
pub const FAN_MARK_ONLYDIR: u32 = 0x00000008;
/// Flag for `fanotify_mark`: mark the whole mount point.
pub const FAN_MARK_MOUNT: u32 = 0x00000010;
/// Flag for `fanotify_mark`: the mask is an ignore mask.
pub const FAN_MARK_IGNORED_MASK: u32 = 0x00000020;
/// Flag for `fanotify_mark`: the ignore mask survives modification.
pub const FAN_MARK_IGNORED_SURV_MODIFY: u32 = 0x00000040;
/// Flag for `fanotify_mark`: flush all marks of the given kind.
pub const FAN_MARK_FLUSH: u32 = 0x00000080;

/// What can go wrong in the compute steps of event delivery. Syscall
/// failures are not represented here: they arise only in the unverified
/// I/O layer, which reports them as the platform's own error value.
#[derive(Clone, Copy, Debug, PartialEq, Eq, Structural)]
pub enum FanError {
    /// The kernel has no bytes queued; polling again may succeed.
    EmptyQueue,
    /// A caller-supplied path cannot be handed to the kernel as a C
    /// string because it contains an interior NUL byte.
    InvalidPath,
    /// One record could not be decoded: its metadata version is not the
    /// one this layer understands.
    InvalidEvent,
}

/// A fanotify notification group: the kernel descriptor it was created
/// with, and whether reads on it block.
pub struct Fanotify {
    /// The group's kernel descriptor.
    pub fd: i32,
    /// True when the group was created in blocking mode.
    pub blocking: bool,
}

impl Fanotify {
    /// Wrap an already-initialized group descriptor.
    pub fn new(fd: i32, blocking: bool) -> (r: Fanotify)
        ensures
            r.fd == fd,
            r.blocking == blocking,
    {
        Fanotify { fd, blocking }
    }

    /// Whether reads on this group block until an event arrives.
    pub fn is_blocking(&self) -> (r: bool)
        ensures
            r == self.blocking,
    {
        self.blocking
    }
}

/// One decoded event: the resolved path, the event bitmask, the
/// kernel-issued descriptor, and the triggering process id.
pub struct FanotifyEv {
    /// Absolute path of the accessed object at the time of the read.
    pub filename: String,
    /// Bitmask of the events this record reports.
    pub mask: u64,
    /// Kernel-issued descriptor for the accessed object.
    pub fd: i32,
    /// Process id that triggered the event.
    pub pid: i32,
}

impl FanotifyEv {
    /// Build a decoded event from a record prefix and the path its
    /// descriptor resolved to, rejecting a record whose metadata version
    /// is not the one this layer understands.
    pub fn from_fanotify_event_metadata(meta: &fanotify_event_metadata, filename: String) -> (r:
        Result<FanotifyEv, FanError>)
        ensures
            meta.vers == sys::FANOTIFY_METADATA_VERSION ==> (r matches Ok(ev)
                && ev.filename@ == filename@ && ev.mask == meta.mask && ev.fd == meta.fd
                && ev.pid == meta.pid),
            meta.vers != sys::FANOTIFY_METADATA_VERSION ==> r == Err::<FanotifyEv, FanError>(
                FanError::InvalidEvent,
            ),
    {
        if meta.vers != sys::FANOTIFY_METADATA_VERSION {
            return Err(FanError::InvalidEvent);
        }
        Ok(FanotifyEv { filename, mask: meta.mask, fd: meta.fd, pid: meta.pid })
    }
}

/// The ASCII bytes of `/proc/self/fd/`.
pub open spec fn proc_fd_prefix() -> Seq<u8> {
    seq![0x2fu8, 0x70, 0x72, 0x6f, 0x63, 0x2f, 0x73, 0x65, 0x6c, 0x66, 0x2f, 0x66, 0x64, 0x2f]
}

/// The ASCII decimal digits of `n`, most significant first, no sign and no
/// leading zero (except for `n == 0` itself).
pub open spec fn dec_digits(n: nat) -> Seq<u8>
    decreases n,
{
    if n < 10 {
        seq![(0x30 + n) as u8]
    } else {
        dec_digits(n / 10) + seq![(0x30 + n % 10) as u8]
    }
}

/// The ASCII bytes of the procfs symlink path for descriptor `fd`:
/// `/proc/self/fd/` followed by `fd` in signed decimal.
pub open spec fn proc_fd_path_bytes(fd: int) -> Seq<u8> {
    if fd < 0 {
        proc_fd_prefix() + seq![0x2du8] + dec_digits((-fd) as nat)
    } else {
        proc_fd_prefix() + dec_digits(fd as nat)
    }
}

fn push_dec_digits(n: u64, out: &mut Vec<u8>)
    ensures
        final(out)@ == old(out)@ + dec_digits(n as nat),
    decreases n,
{
    if n < 10 {
        let d: u8 = 0x30 + n as u8;
        out.push(d);
        proof {
            assert(out@ =~= old(out)@ + dec_digits(n as nat));
        }
    } else {
        push_dec_digits(n / 10, out);
        let d: u8 = 0x30 + (n % 10) as u8;
        out.push(d);
        proof {
            assert(n as nat / 10 == (n / 10) as nat);
            assert(out@ =~= old(out)@ + dec_digits(n as nat));
        }
    }
}

/// The ASCII path of the procfs symlink that resolves descriptor `fd`:
/// `/proc/self/fd/` followed by `fd` in decimal.
pub fn proc_fd_path(fd: i32) -> (r: Vec<u8>)
    ensures
        r@ == proc_fd_path_bytes(fd as int),
{
    let mut out: Vec<u8> = Vec::new();
    out.push(0x2f);
    out.push(0x70);
    out.push(0x72);
    out.push(0x6f);
    out.push(0x63);
    out.push(0x2f);
    out.push(0x73);
    out.push(0x65);
    out.push(0x6c);
    out.push(0x66);
    out.push(0x2f);
    out.push(0x66);
    out.push(0x64);
    out.push(0x2f);
    proof {
        assert(out@ =~= proc_fd_prefix());
    }
    if fd < 0 {
        out.push(0x2d);
        let ghost signed = out@;
        let m: u64 = (-(fd as i64)) as u64;
        push_dec_digits(m, &mut out);
        proof {
            assert(signed =~= proc_fd_prefix() + seq![0x2du8]);
            assert(m as nat == (-(fd as int)) as nat);
            assert(out@ =~= proc_fd_path_bytes(fd as int));
        }
    } else {
        push_dec_digits(fd as u64, &mut out);
        proof {
            assert(out@ =~= proc_fd_path_bytes(fd as int));
        }
    }
    out
}

/// Copy `path` into the NUL-terminated byte image of a C string, as
/// `fanotify_mark` wants it, rejecting a path with an interior NUL byte.
pub fn c_path_bytes(path: &Vec<u8>) -> (r: Result<Vec<u8>, FanError>)
    ensures
        match r {
            Ok(c) => c@ == path@ + seq![0u8] && (forall|i: int|
                0 <= i < path@.len() ==> path@[i] != 0),
            Err(e) => e == FanError::InvalidPath && (exists|i: int|
                0 <= i < path@.len() && path@[i] == 0),
        },
{
    let mut out: Vec<u8> = Vec::new();
    let mut i: usize = 0;
    while i < path.len()
        invariant
            i <= path.len(),
            out@ == path@.take(i as int),
            forall|j: int| 0 <= j < i ==> path@[j] != 0,
        decreases path.len() - i,
    {
        let b: u8 = path[i];
        if b == 0 {
            return Err(FanError::InvalidPath);
        }
        out.push(b);
        i = i + 1;
        proof {
            assert(out@ =~= path@.take(i as int));
        }
    }
    proof {
        assert(out@ =~= path@);
    }
    out.push(0);
    Ok(out)
}

/// Classify what `ioctl(FIONREAD)` reported: zero queued bytes is the
/// empty-queue error, never success with an empty batch.
pub fn check_queue(readable: usize) -> (r: Result<usize, FanError>)
    ensures
        readable == 0 ==> r == Err::<usize, FanError>(FanError::EmptyQueue),
        readable > 0 ==> r == Ok::<usize, FanError>(readable),
{
    if readable == 0 {
        Err(FanError::EmptyQueue)
    } else {
        Ok(readable)
    }
}

/// Frame one read buffer into record prefixes, in byte order, stopping at
/// the first record that `fan_event_ok` rejects.
pub fn decode_events(buf: &Vec<u8>) -> (events: Vec<fanotify_event_metadata>)
    ensures
        events@ == sys::decode(buf@),
{
    let mut events: Vec<fanotify_event_metadata> = Vec::new();
    let mut off: usize = 0;
    let mut remaining: usize = buf.len();
    proof {
        assert(events@ + sys::decode_from(buf@, 0) =~= sys::decode(buf@));
    }
    while sys::fan_event_ok(buf, off, remaining)
        invariant
            off + remaining == buf@.len(),
            events@ + sys::decode_from(buf@, off as int) == sys::decode(buf@),
        decreases remaining,
    {
        let ghost prev_off = off as int;
        let ghost prev_events = events@;
        let meta = sys::read_event_meta(buf, off);
        events.push(meta);
        off = sys::fan_event_next(buf, off, &mut remaining);
        proof {
            assert(sys::decode_from(buf@, prev_off) == seq![meta] + sys::decode_from(
                buf@,
                off as int,
            ));
            assert(events@ + sys::decode_from(buf@, off as int) =~= prev_events
                + sys::decode_from(buf@, prev_off));
        }
    }
    proof {
        assert(sys::decode_from(buf@, off as int) =~= Seq::<fanotify_event_metadata>::empty());
        assert(events@ =~= sys::decode(buf@));
    }
    events
}

} // verus!
