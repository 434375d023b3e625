//! The length-prefixed string format.

use angelscript_vm::sized_string::SizedString;
use angelscript_vm::VmError;

#[test]
fn data_returns_raw_bytes() {
    let s = SizedString::new(vec![b'h', b'i', 0]);
    assert_eq!(s.data(), &[b'h', b'i', 0]);
}

#[test]
fn as_str_trims_one_trailing_nul() {
    let s = SizedString::new(vec![b'h', b'i', 0]);
    assert_eq!(s.as_str().unwrap(), "hi");
    let t = SizedString::new(vec![b'h', b'i']);
    assert_eq!(t.as_str().unwrap(), "hi");
    let u = SizedString::new(vec![0, b'x', 0, 0]);
    assert_eq!(u.as_str().unwrap(), "\0x\0");
}

#[test]
fn as_str_rejects_invalid_utf8() {
    let s = SizedString::new(vec![0xff, 0xfe]);
    assert!(s.as_str().is_err());
}

#[test]
fn as_str_of_empty_is_empty() {
    let s = SizedString::new(Vec::new());
    assert_eq!(s.as_str().unwrap(), "");
}

#[test]
fn wire_round_trip() {
    let s = SizedString::new(vec![b'a', b'b', b'c', 0]);
    let bytes = s.to_bytes();
    assert_eq!(bytes, vec![4, 0, 0, 0, b'a', b'b', b'c', 0]);
    let (back, next) = SizedString::read_from(&bytes, 0).unwrap();
    assert_eq!(back.data(), s.data());
    assert_eq!(next, bytes.len());
}

#[test]
fn read_from_at_offset_and_in_sequence() {
    let mut wire = vec![0xaa];
    wire.extend_from_slice(&SizedString::new(vec![b'x']).to_bytes());
    wire.extend_from_slice(&SizedString::new(vec![b'y', b'z']).to_bytes());
    let (first, mid) = SizedString::read_from(&wire, 1).unwrap();
    assert_eq!(first.data(), &[b'x']);
    let (second, end) = SizedString::read_from(&wire, mid).unwrap();
    assert_eq!(second.data(), &[b'y', b'z']);
    assert_eq!(end, wire.len());
}

#[test]
fn read_from_rejects_short_input() {
    assert!(matches!(SizedString::read_from(&[1, 0], 0), Err(VmError::CodeOutOfBounds)));
    // The count promises more payload than the buffer holds.
    assert!(matches!(
        SizedString::read_from(&[5, 0, 0, 0, b'a'], 0),
        Err(VmError::CodeOutOfBounds)
    ));
}
