use ptynotify::errors::Error;
use ptynotify::event::decode_events;
use ptynotify::flags::{IN_ATTRIB, IN_CREATE, IN_MOVED_FROM};

fn record(wd: i32, mask: u32, cookie: u32, name: &[u8]) -> Vec<u8> {
    let mut buf = Vec::new();
    buf.extend_from_slice(&wd.to_le_bytes());
    buf.extend_from_slice(&mask.to_le_bytes());
    buf.extend_from_slice(&cookie.to_le_bytes());
    buf.extend_from_slice(&(name.len() as u32).to_le_bytes());
    buf.extend_from_slice(name);
    buf
}

#[test]
fn decode_empty_buffer() {
    let buf = Vec::new();
    let events = decode_events(&buf).unwrap();
    assert_eq!(events.len(), 0);
}

#[test]
fn decode_single_zero_name_record() {
    // one record whose declared name length is zero: exactly one event,
    // with an empty name and the header's fields
    let buf = record(5, IN_CREATE, 0, b"");
    assert_eq!(buf.len(), 16);
    let events = decode_events(&buf).unwrap();
    assert_eq!(events.len(), 1);
    assert_eq!(events[0].wd().0, 5);
    assert_eq!(events[0].raw_mask(), IN_CREATE);
    assert_eq!(events[0].cookie(), 0);
    assert_eq!(events[0].filename().len(), 0);
}

#[test]
fn decode_two_records_in_file_order() {
    // two concatenated records decode to two events in buffer order, each
    // name sliced to its own record's bounds
    let mut buf = record(1, IN_MOVED_FROM, 77, b"old-name\0\0\0\0");
    buf.extend_from_slice(&record(2, IN_ATTRIB, 0, b""));
    let events = decode_events(&buf).unwrap();
    assert_eq!(events.len(), 2);

    assert_eq!(events[0].wd().0, 1);
    assert_eq!(events[0].raw_mask(), IN_MOVED_FROM);
    assert_eq!(events[0].cookie(), 77);
    assert_eq!(events[0].filename().as_slice(), b"old-name");

    assert_eq!(events[1].wd().0, 2);
    assert_eq!(events[1].raw_mask(), IN_ATTRIB);
    assert_eq!(events[1].filename().len(), 0);
}

#[test]
fn decode_strips_only_trailing_nul() {
    // NUL bytes inside the name stay; only the padding at the end goes
    let buf = record(3, IN_CREATE, 0, b"a\0b\0\0");
    let events = decode_events(&buf).unwrap();
    assert_eq!(events.len(), 1);
    assert_eq!(events[0].filename().as_slice(), b"a\0b");
}

#[test]
fn decode_all_nul_name_is_empty() {
    let buf = record(3, IN_CREATE, 0, b"\0\0\0\0");
    let events = decode_events(&buf).unwrap();
    assert_eq!(events[0].filename().len(), 0);
}

#[test]
fn decode_short_fragment_fails() {
    // a trailing fragment shorter than one header is corruption
    let buf = vec![1u8, 2, 3];
    assert_eq!(decode_events(&buf).unwrap_err(), Error::Decoding);
}

#[test]
fn decode_overlong_declared_name_fails() {
    // a declared name length reaching past the buffer is corruption, not a
    // truncated read
    let buf = record(9, IN_CREATE, 0, b"abc");
    let cut = buf[0..17].to_vec();
    assert_eq!(decode_events(&cut).unwrap_err(), Error::Decoding);
}

#[test]
fn decode_good_record_after_bad_tail_fails() {
    // corruption anywhere in the buffer fails the whole decode
    let mut buf = record(1, IN_CREATE, 0, b"");
    buf.extend_from_slice(&[0u8; 5]);
    assert_eq!(decode_events(&buf).unwrap_err(), Error::Decoding);
}
