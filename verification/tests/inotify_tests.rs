use ptynotify::event::decode_events;
use ptynotify::flags::{
    InotifyCreateFlags, InotifyEventMask, IN_CREATE, IN_DELETE, IN_NONBLOCK,
};
use ptynotify::inotify::InotifyFd;

use tempfile::NamedTempFile;

#[test]
fn test_inotify() {
    let ifd = InotifyFd::new(InotifyCreateFlags::empty()).unwrap();
    {
        let tmp = NamedTempFile::new().unwrap();

        ifd.add(
            tmp.path().to_str().unwrap(),
            InotifyEventMask::from_bits_truncate(IN_DELETE),
        )
        .unwrap();
    }
}

#[test]
fn watch_lifecycle() {
    // Adding a watch on an existing path then removing it does not error;
    // removing the same identifier again fails with a kernel error.
    let dir = tempfile::tempdir().unwrap();
    let ifd = InotifyFd::new(InotifyCreateFlags::empty()).unwrap();
    let wd = ifd
        .add(
            dir.path().to_str().unwrap(),
            InotifyEventMask::from_bits_truncate(IN_DELETE),
        )
        .unwrap();
    ifd.rm(wd).unwrap();

    let again = ifd.rm(wd);
    assert!(again.is_err());
    let err = again.unwrap_err();
    assert!(err.is_system());
    assert!(err.code().is_some());
}

#[test]
fn watch_upsert() {
    // Two adds for the identical path on the same instance yield the same
    // identifier: the kernel updates the existing watch's mask.
    let dir = tempfile::tempdir().unwrap();
    let ifd = InotifyFd::new(InotifyCreateFlags::empty()).unwrap();
    let path = dir.path().to_str().unwrap().to_string();
    let first = ifd
        .add(&path, InotifyEventMask::from_bits_truncate(IN_DELETE))
        .unwrap();
    let second = ifd
        .add(&path, InotifyEventMask::from_bits_truncate(IN_CREATE))
        .unwrap();
    assert_eq!(first, second);
    ifd.rm(first).unwrap();
}

#[test]
fn add_missing_path_fails() {
    let dir = tempfile::tempdir().unwrap();
    let ifd = InotifyFd::new(InotifyCreateFlags::empty()).unwrap();
    let missing = format!("{}/not-there", dir.path().to_str().unwrap());
    let res = ifd.add(&missing, InotifyEventMask::from_bits_truncate(IN_DELETE));
    assert!(res.is_err());
    assert!(res.unwrap_err().is_system());
}

#[test]
fn kernel_events_decode_in_order() {
    // A real kernel buffer: watch a directory, create then delete a file in
    // it, and decode the bytes the kernel hands back. The decoded events
    // carry the watch identifier, the expected masks and the stripped name.
    let dir = tempfile::tempdir().unwrap();
    let ifd = InotifyFd::new(InotifyCreateFlags::empty()).unwrap();
    let mask = InotifyEventMask::from_bits_truncate(IN_CREATE | IN_DELETE);
    let wd = ifd.add(dir.path().to_str().unwrap(), mask).unwrap();

    let tmp = NamedTempFile::new_in(dir.path()).unwrap();
    let fname = tmp.path().file_name().unwrap().to_str().unwrap().to_string();
    drop(tmp);

    let buf = ifd.read_raw(4096).unwrap();
    let events = decode_events(&buf).unwrap();
    assert_eq!(events.len(), 2);

    assert_eq!(events[0].wd(), wd);
    assert_eq!(events[0].mask().bits() & IN_CREATE, IN_CREATE);
    assert_eq!(events[0].filename().as_slice(), fname.as_bytes());

    assert_eq!(events[1].wd(), wd);
    assert_eq!(events[1].mask().bits() & IN_DELETE, IN_DELETE);
    assert_eq!(events[1].filename().as_slice(), fname.as_bytes());
}

#[test]
fn nonblocking_read_fails_cleanly() {
    // A non-blocking instance with nothing pending fails with a kernel
    // error code instead of blocking.
    let ifd = InotifyFd::new(InotifyCreateFlags::from_bits_truncate(IN_NONBLOCK)).unwrap();
    let res = ifd.read_raw(512);
    assert!(res.is_err());
    assert!(res.unwrap_err().is_system());
}

#[test]
fn instance_release_transfers_ownership() {
    // Releasing the instance hands the descriptor out unclosed: closing it
    // by hand then succeeds exactly once.
    let ifd = InotifyFd::new(InotifyCreateFlags::empty()).unwrap();
    let raw = ifd.as_raw_fd();
    assert!(raw > 0);
    let guard = ifd.release();
    assert_eq!(guard.as_raw_fd(), raw);
    nix::unistd::close(guard.release()).unwrap();
}
