//! Decisions of the file handle: the open options an `fopen`-style mode
//! asks for, and the seek a `(offset, whence)` pair names.

use vstd::prelude::*;
use crate::bytes_io::SeekTarget;
use crate::text::{chars_eq, str_to_chars};

verus! {

/// The options a file is opened with.
#[derive(Debug, Clone, Copy, PartialEq, Eq)]
pub struct OpenFlags {
    pub read: bool,
    pub write: bool,
    pub append: bool,
    pub create: bool,
    pub truncate: bool,
}

/// Opened for reading only.
pub open spec fn read_only() -> OpenFlags {
    OpenFlags { read: true, write: false, append: false, create: false, truncate: false }
}

/// The open options of a mode: `r` reads; `w` writes, creating and
/// truncating; `a` appends, creating; `r+` reads and writes; `w+` reads and
/// writes, creating and truncating. Each may carry a trailing `b`; any
/// other mode reads.
pub open spec fn open_flags_spec(mode: Seq<char>) -> OpenFlags {
    if mode == "r"@ || mode == "rb"@ {
        read_only()
    } else if mode == "w"@ || mode == "wb"@ {
        OpenFlags { read: false, write: true, append: false, create: true, truncate: true }
    } else if mode == "a"@ || mode == "ab"@ {
        OpenFlags { read: false, write: false, append: true, create: true, truncate: false }
    } else if mode == "r+"@ || mode == "r+b"@ {
        OpenFlags { read: true, write: true, append: false, create: false, truncate: false }
    } else if mode == "w+"@ || mode == "w+b"@ {
        OpenFlags { read: true, write: true, append: false, create: true, truncate: true }
    } else {
        read_only()
    }
}

fn str_is(s: &str, lit: &str) -> (b: bool)
    ensures
        b == (s@ == lit@),
{
    chars_eq(&str_to_chars(s), &str_to_chars(lit))
}

/// The open options for a mode.
pub fn open_flags(mode: &str) -> (f: OpenFlags)
    ensures
        f == open_flags_spec(mode@),
{
    let r = OpenFlags { read: true, write: false, append: false, create: false, truncate: false };
    if str_is(mode, "r") || str_is(mode, "rb") {
        r
    } else if str_is(mode, "w") || str_is(mode, "wb") {
        OpenFlags { read: false, write: true, append: false, create: true, truncate: true }
    } else if str_is(mode, "a") || str_is(mode, "ab") {
        OpenFlags { read: false, write: false, append: true, create: true, truncate: false }
    } else if str_is(mode, "r+") || str_is(mode, "r+b") {
        OpenFlags { read: true, write: true, append: false, create: false, truncate: false }
    } else if str_is(mode, "w+") || str_is(mode, "w+b") {
        OpenFlags { read: true, write: true, append: false, create: true, truncate: true }
    } else {
        r
    }
}

/// The seek of a file handle: whence 1 from the current position, 2 from
/// the end, and anything else from the start, the offset taken as an
/// unsigned number.
pub open spec fn file_seek_spec(offset: i64, whence: i64) -> SeekTarget {
    if whence == 1 {
        SeekTarget::Current(offset)
    } else if whence == 2 {
        SeekTarget::End(offset)
    } else {
        SeekTarget::Start(offset as u64)
    }
}

/// The seek a file handle performs for `(offset, whence)`.
pub fn file_seek_target(offset: i64, whence: i64) -> (t: SeekTarget)
    ensures
        t == file_seek_spec(offset, whence),
{
    if whence == 1 {
        SeekTarget::Current(offset)
    } else if whence == 2 {
        SeekTarget::End(offset)
    } else {
        SeekTarget::Start(offset as u64)
    }
}

} // verus!
