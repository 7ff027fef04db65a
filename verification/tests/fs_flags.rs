use async_php::bytes_io::SeekTarget;
use async_php::fs::{file_seek_target, open_flags, OpenFlags};

fn flags(read: bool, write: bool, append: bool, create: bool, truncate: bool) -> OpenFlags {
    OpenFlags { read, write, append, create, truncate }
}

#[test]
fn open_modes() {
    assert_eq!(open_flags("r"), flags(true, false, false, false, false));
    assert_eq!(open_flags("rb"), flags(true, false, false, false, false));
    assert_eq!(open_flags("w"), flags(false, true, false, true, true));
    assert_eq!(open_flags("wb"), flags(false, true, false, true, true));
    assert_eq!(open_flags("a"), flags(false, false, true, true, false));
    assert_eq!(open_flags("ab"), flags(false, false, true, true, false));
    assert_eq!(open_flags("r+"), flags(true, true, false, false, false));
    assert_eq!(open_flags("r+b"), flags(true, true, false, false, false));
    assert_eq!(open_flags("w+"), flags(true, true, false, true, true));
    assert_eq!(open_flags("w+b"), flags(true, true, false, true, true));
}

#[test]
fn unknown_mode_reads() {
    assert_eq!(open_flags("x"), flags(true, false, false, false, false));
    assert_eq!(open_flags(""), flags(true, false, false, false, false));
    assert_eq!(open_flags("a+"), flags(true, false, false, false, false));
}

#[test]
fn file_seek_defaults_to_start() {
    assert_eq!(file_seek_target(5, 0), SeekTarget::Start(5));
    assert_eq!(file_seek_target(-1, 1), SeekTarget::Current(-1));
    assert_eq!(file_seek_target(-1, 2), SeekTarget::End(-1));
    assert_eq!(file_seek_target(9, 42), SeekTarget::Start(9));
    assert_eq!(file_seek_target(-1, 0), SeekTarget::Start(u64::MAX));
}
