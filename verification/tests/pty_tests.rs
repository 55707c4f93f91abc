use ptynotify::flags::{PtyOpenFlags, PTY_NOCTTY, PTY_RDWR};
use ptynotify::pty::{grant_access, open_master, openpty, resolve_slave_name, unlock};

use nix::fcntl::OFlag;
use nix::sys::stat::Mode;
use nix::unistd::{close, read};
use std::path::Path;

#[test]
fn test_openpty() {
    let pty = openpty(None, None).unwrap();
    // must be valid file descriptors
    assert!(pty.master.as_raw_fd() > 0);
    assert!(pty.slave.as_raw_fd() > 0);

    // writing to one should be readable on the other one
    let string = "foofoofoo\n";
    let mut buf = [0u8; 16];
    nix::unistd::write(pty.master.borrow_fd(), string.as_bytes()).unwrap();
    let len = read(pty.slave.borrow_fd(), &mut buf).unwrap();

    assert_eq!(len, string.len());
    assert_eq!(&buf[0..len], string.as_bytes());

    // read the echo as well
    let echoed_string = "foofoofoo\r\n";
    let len = read(pty.master.borrow_fd(), &mut buf).unwrap();
    assert_eq!(len, echoed_string.len());
    assert_eq!(&buf[0..len], echoed_string.as_bytes());

    let string2 = "barbarbarbar\n";
    let echoed_string2 = "barbarbarbar\r\n";
    nix::unistd::write(pty.slave.borrow_fd(), string2.as_bytes()).unwrap();
    let len = read(pty.master.borrow_fd(), &mut buf).unwrap();

    assert_eq!(len, echoed_string2.len());
    assert_eq!(&buf[0..len], echoed_string2.as_bytes());

    close(pty.master.release()).unwrap();
    close(pty.slave.release()).unwrap();
}

#[test]
fn four_step_protocol_in_order() {
    // The bring-up sequence: open the master, grant access, unlock, resolve
    // the slave's name, and only then open the slave by path.
    let flags = PtyOpenFlags::from_bits_truncate(PTY_RDWR | PTY_NOCTTY);
    let master = open_master(flags).unwrap();
    assert!(master.as_raw_fd() > 0);
    grant_access(&master).unwrap();
    unlock(&master).unwrap();
    let name = resolve_slave_name(&master).unwrap();
    assert!(name.starts_with("/dev/pts/"));

    let slave = nix::fcntl::open(Path::new(&name), OFlag::O_RDWR | OFlag::O_NOCTTY, Mode::empty())
        .unwrap();

    // data written to the master comes out of the slave
    let text = "ping\n";
    let mut buf = [0u8; 16];
    nix::unistd::write(master.borrow_inner(), text.as_bytes()).unwrap();
    let len = read(&slave, &mut buf).unwrap();
    assert_eq!(&buf[0..len], text.as_bytes());

    close(slave).unwrap();
}

#[test]
fn resolve_name_is_stable() {
    // The reentrant resolution is a pure lookup: asking twice for the same
    // master yields the same slave path.
    let master = open_master(PtyOpenFlags::from_bits_truncate(PTY_RDWR)).unwrap();
    grant_access(&master).unwrap();
    unlock(&master).unwrap();
    let a = resolve_slave_name(&master).unwrap();
    let b = resolve_slave_name(&master).unwrap();
    assert_eq!(a, b);
    assert!(!a.is_empty());
}

#[test]
fn master_release_transfers_ownership() {
    // Releasing hands the descriptor out unclosed: closing it by hand then
    // succeeds, and the guard cannot be used afterwards (it was consumed).
    let master = open_master(PtyOpenFlags::from_bits_truncate(PTY_RDWR)).unwrap();
    let guard = master.release();
    let raw = guard.release();
    assert!(raw > 0);
    close(raw).unwrap();
}
