use rustix::fs::wasi_open::{wasi_open_flags, WasiOpen, WASI_O_NOFOLLOW};
use rustix::fs::types::{S_IFDIR, S_IFMT, S_IFREG};
use rustix::fs::{Advice, DirEntry, FileType, Mode, OFlags};

#[test]
fn file_type_from_mode() {
    assert_eq!(FileType::from_raw_mode(0o100644), FileType::RegularFile);
    assert_eq!(FileType::from_raw_mode(0o040755), FileType::Directory);
    assert_eq!(FileType::from_raw_mode(0o120777), FileType::Symlink);
    assert_eq!(FileType::from_raw_mode(0o010600), FileType::Fifo);
    assert_eq!(FileType::from_raw_mode(0o140755), FileType::Socket);
    assert_eq!(FileType::from_raw_mode(0o020620), FileType::CharacterDevice);
    assert_eq!(FileType::from_raw_mode(0o060660), FileType::BlockDevice);
    assert_eq!(FileType::from_raw_mode(0o000644), FileType::Unknown);
    assert_eq!(FileType::from_raw_mode(0o170000), FileType::Unknown);
    assert_eq!(FileType::from_mode(Mode::from_raw_mode(0o100000)), FileType::RegularFile);
}

#[test]
fn file_type_mode_roundtrip() {
    let all = [
        FileType::RegularFile,
        FileType::Directory,
        FileType::Symlink,
        FileType::Fifo,
        FileType::Socket,
        FileType::CharacterDevice,
        FileType::BlockDevice,
        FileType::Unknown,
    ];
    for t in all {
        assert_eq!(FileType::from_raw_mode(t.as_raw_mode()), t);
        // Permission bits do not change the file type.
        assert_eq!(FileType::from_raw_mode(t.as_raw_mode() | 0o7777), t);
    }
    assert_eq!(FileType::RegularFile.as_raw_mode(), S_IFREG);
    assert_eq!(FileType::Directory.as_raw_mode(), S_IFDIR);
    assert_eq!(FileType::Unknown.as_raw_mode(), S_IFMT);
}

#[test]
fn file_type_from_dirent() {
    assert_eq!(FileType::from_dirent_d_type(8), FileType::RegularFile);
    assert_eq!(FileType::from_dirent_d_type(4), FileType::Directory);
    assert_eq!(FileType::from_dirent_d_type(10), FileType::Symlink);
    assert_eq!(FileType::from_dirent_d_type(12), FileType::Socket);
    assert_eq!(FileType::from_dirent_d_type(1), FileType::Fifo);
    assert_eq!(FileType::from_dirent_d_type(2), FileType::CharacterDevice);
    assert_eq!(FileType::from_dirent_d_type(6), FileType::BlockDevice);
    assert_eq!(FileType::from_dirent_d_type(0), FileType::Unknown);
    assert_eq!(FileType::from_dirent_d_type(14), FileType::Unknown);
}

#[test]
fn mode_and_oflags_keep_bits() {
    let m = Mode::from_raw_mode(0o4755);
    assert_eq!(m.bits(), 0o4755);
    assert_eq!(m.as_raw_mode(), 0o4755);
    assert_eq!(OFlags::from_bits_retain(0o2000101).bits(), 0o2000101);
}

#[test]
fn dir_entry_accessors() {
    let e = DirEntry::new(1234, 4, b"subdir".to_vec());
    assert_eq!(e.ino(), 1234);
    assert_eq!(e.file_name(), b"subdir");
    assert_eq!(e.file_type(), FileType::Directory);
    let f = DirEntry::new(7, 0, b"x".to_vec());
    assert_eq!(f.file_type(), FileType::Unknown);
}

#[test]
fn fadvise_numbers() {
    assert_eq!(Advice::Normal.as_raw(), 0);
    assert_eq!(Advice::Random.as_raw(), 1);
    assert_eq!(Advice::Sequential.as_raw(), 2);
    assert_eq!(Advice::WillNeed.as_raw(), 3);
    assert_eq!(Advice::DontNeed.as_raw(), 4);
    assert_eq!(Advice::NoReuse.as_raw(), 5);
}

#[test]
fn wasi_open_arguments() {
    assert_eq!(
        wasi_open_flags(0x0312, 0o644),
        WasiOpen {
            fdflags: 0x03,
            oflags: 0x12,
            symlink_follow: true,
            readable: true,
            writeable: false,
            executable: false,
        }
    );
    let r = wasi_open_flags(WASI_O_NOFOLLOW | 0xff00, 0o777);
    assert_eq!(r.fdflags, 0xff);
    assert_eq!(r.oflags, 0);
    assert!(!r.symlink_follow);
    assert!(r.readable && r.writeable && r.executable);
    assert!(!wasi_open_flags(0, 0o755).writeable);
}
