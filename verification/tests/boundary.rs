use fficow::buffer::encoding_encode;
use fficow::byte_view::byte_view;
use fficow::ffi_cow::FFICow;
use fficow::handle::HandleRegistry;
use fficow::transform::{Identity, Transform, TransformOutput, XmlEscape};

#[test]
fn byte_view_explicit_length() {
    let src = b"abcdef";
    let v = byte_view(Some(&src[..]), 3).unwrap();
    assert_eq!(v, b"abc");
}

#[test]
fn byte_view_terminated() {
    let src = b"ab\0cd";
    let v = byte_view(Some(&src[..]), 0).unwrap();
    assert_eq!(v, b"ab");
}

#[test]
fn byte_view_terminated_without_terminator() {
    let src = b"ab";
    let v = byte_view(Some(&src[..]), 0).unwrap();
    assert_eq!(v, b"ab");
}

#[test]
fn byte_view_null_source() {
    assert!(byte_view(None, 0).is_none());
    assert!(byte_view(None, 5).is_none());
}

#[test]
fn identity_passes_through() {
    let out = Identity.apply(b"hello");
    assert!(matches!(out, TransformOutput::Unchanged));
}

#[test]
fn xml_escape_clean_input_passes_through() {
    let out = XmlEscape.apply(b"plain text");
    assert!(matches!(out, TransformOutput::Unchanged));
}

#[test]
fn xml_escape_replaces_markup() {
    match XmlEscape.apply(b"<x> & y") {
        TransformOutput::Replaced(v) => assert_eq!(v, b"&lt;x&gt; &amp; y"),
        TransformOutput::Unchanged => panic!("markup input must be replaced"),
    }
}

#[test]
fn pass_through_wraps_borrowed() {
    let src = b"hello";
    let out = Identity.apply(&src[..]);
    let cow = FFICow::from_output(out, &src[..]);
    assert!(matches!(cow, FFICow::Borrowed(_)));
    assert_eq!(cow.len(), 5);
    assert_eq!(cow.as_slice(&src[..]), b"hello");
}

#[test]
fn replacement_wraps_owned() {
    let src = b"a&b";
    let out = XmlEscape.apply(&src[..]);
    let cow = FFICow::from_output(out, &src[..]);
    assert!(matches!(cow, FFICow::Owned(_)));
    assert_eq!(cow.len(), 7);
    assert_eq!(cow.as_slice(&src[..]), b"a&amp;b");
}

#[test]
fn handle_reports_standalone_length() {
    let mut reg = HandleRegistry::new();
    let src = b"a<b";
    let h = reg.encoding_encode_s(&XmlEscape, Some(&src[..]), 3).unwrap();
    assert_eq!(reg.fficow_len(h), 6);
    reg.fficow_free(h);
}

#[test]
fn handle_empty_terminated_input() {
    let mut reg = HandleRegistry::new();
    let src = [0u8];
    let h = reg.encoding_encode_s(&Identity, Some(&src[..]), 0).unwrap();
    assert_eq!(reg.fficow_len(h), 0);
    reg.fficow_free(h);
}

#[test]
fn handle_null_input_rejected() {
    let mut reg = HandleRegistry::new();
    assert!(reg.encoding_encode_s(&Identity, None, 0).is_none());
}

#[test]
fn handle_single_release_sequences_never_leak() {
    let mut reg = HandleRegistry::new();
    assert_eq!(reg.live_handles(), 0);
    let src = b"one";
    let other = b"three";
    let h1 = reg.encoding_encode_s(&Identity, Some(&src[..]), 3).unwrap();
    let h2 = reg.encoding_encode_s(&Identity, Some(&other[..]), 5).unwrap();
    assert_eq!(reg.live_handles(), 2);
    assert_eq!(reg.fficow_len(h1), 3);
    assert_eq!(reg.fficow_len(h2), 5);
    reg.fficow_free(h1);
    assert_eq!(reg.live_handles(), 1);
    assert_eq!(reg.fficow_len(h2), 5);
    reg.fficow_free(h2);
    assert_eq!(reg.live_handles(), 0);
}

#[test]
fn buffer_negotiation_hello() {
    let src = b"hello";
    let mut buf = vec![0u8; 3];
    let mut cap: usize = 3;
    let r = encoding_encode(&Identity, Some(&src[..]), 5, &mut buf, &mut cap);
    assert_eq!(r, -1);
    assert_eq!(cap, 6);
    assert_eq!(buf, vec![0u8; 3]);

    let mut buf = vec![0xffu8; 6];
    let mut cap: usize = 6;
    let r = encoding_encode(&Identity, Some(&src[..]), 5, &mut buf, &mut cap);
    assert_eq!(r, 0);
    assert_eq!(cap, 6);
    assert_eq!(buf, b"hello\0");
}

#[test]
fn buffer_zero_capacity_retry() {
    let src = b"abc";
    let mut buf: Vec<u8> = Vec::new();
    let mut cap: usize = 0;
    let r = encoding_encode(&Identity, Some(&src[..]), 3, &mut buf, &mut cap);
    assert_eq!(r, -1);
    assert_eq!(cap, 4);

    let mut buf = vec![0u8; 4];
    let mut cap: usize = 4;
    let r = encoding_encode(&Identity, Some(&src[..]), 3, &mut buf, &mut cap);
    assert_eq!(r, 0);
    assert_eq!(buf, b"abc\0");
}

#[test]
fn buffer_expanding_transform_fails_at_authoritative_check() {
    // The input alone fits the offer, so the advisory pre-check passes;
    // the expanded result does not, and the authoritative check rejects.
    let src = b"a&b";
    let mut buf = vec![0u8; 4];
    let mut cap: usize = 4;
    let r = encoding_encode(&XmlEscape, Some(&src[..]), 3, &mut buf, &mut cap);
    assert_eq!(r, -1);
    assert_eq!(cap, 8);
    assert_eq!(buf, vec![0u8; 4]);

    let mut buf = vec![0u8; 8];
    let mut cap: usize = 8;
    let r = encoding_encode(&XmlEscape, Some(&src[..]), 3, &mut buf, &mut cap);
    assert_eq!(r, 0);
    assert_eq!(buf, b"a&amp;b\0");
}

#[test]
fn buffer_null_input_rejected() {
    let mut buf = vec![0u8; 4];
    let mut cap: usize = 4;
    let r = encoding_encode(&Identity, None, 0, &mut buf, &mut cap);
    assert_eq!(r, -1);
    assert_eq!(cap, 4);
    assert_eq!(buf, vec![0u8; 4]);
}

#[test]
fn buffer_success_keeps_tail() {
    let src = b"hi";
    let mut buf = vec![9u8; 6];
    let mut cap: usize = 6;
    let r = encoding_encode(&Identity, Some(&src[..]), 2, &mut buf, &mut cap);
    assert_eq!(r, 0);
    assert_eq!(cap, 3);
    assert_eq!(buf, [b'h', b'i', 0, 9, 9, 9]);
}
