use cpython_api_core::base64::{
    encode_into, encoded_output_len, standard_b64encode, standard_b64encode_query, Base64State,
};
use cpython_api_core::buffer::BufferReply;
use cpython_api_core::sys_calls::SysQuery;
use cpython_api_core::threadstate::ExcType;
use cpython_api_core::{PyBuffer, ThreadState};

fn encode(input: &[u8]) -> String {
    let mut out = vec![0u8; encoded_output_len(input.len()).unwrap()];
    encode_into(input, &mut out);
    String::from_utf8(out).unwrap()
}

/// Decodes by looking each symbol up, as a check that is independent of the
/// encoder.
fn decode(text: &str) -> Vec<u8> {
    let table = "ABCDEFGHIJKLMNOPQRSTUVWXYZabcdefghijklmnopqrstuvwxyz0123456789+/";
    let mut bits: u32 = 0;
    let mut n = 0;
    let mut out = Vec::new();
    for c in text.chars().filter(|c| *c != '=') {
        bits = (bits << 6) | table.find(c).unwrap() as u32;
        n += 6;
        if n >= 8 {
            n -= 8;
            out.push((bits >> n) as u8);
            bits &= (1 << n) - 1;
        }
    }
    out
}

fn buffer<'py>(ts: &ThreadState<'py>, bytes: &'py [u8]) -> PyBuffer<'py> {
    let reply = BufferReply { ret: 0, len: bytes.len() as isize, bytes: Some(bytes) };
    PyBuffer::get(ts, reply).unwrap()
}

#[test]
fn known_encodings() {
    assert_eq!(encode(b""), "");
    assert_eq!(encode(b"f"), "Zg==");
    assert_eq!(encode(b"fo"), "Zm8=");
    assert_eq!(encode(b"foo"), "Zm9v");
    assert_eq!(encode(b"foob"), "Zm9vYg==");
    assert_eq!(encode(b"fooba"), "Zm9vYmE=");
    assert_eq!(encode(b"foobar"), "Zm9vYmFy");
    assert_eq!(encode(&[0xfb, 0xff, 0xbf]), "+/+/");
    assert_eq!(encode(&[0, 0, 0]), "AAAA");
    assert_eq!(encode(&[0xff, 0xff, 0xff]), "////");
}

#[test]
fn whole_alphabet() {
    let mut input = Vec::new();
    for block in 0u32..16 {
        let d = block * 4;
        let group = (d << 18) | ((d + 1) << 12) | ((d + 2) << 6) | (d + 3);
        input.extend_from_slice(&[(group >> 16) as u8, (group >> 8) as u8, group as u8]);
    }
    assert_eq!(encode(&input), "ABCDEFGHIJKLMNOPQRSTUVWXYZabcdefghijklmnopqrstuvwxyz0123456789+/");
}

#[test]
fn round_trip() {
    let mut input = Vec::new();
    for n in 0..70u8 {
        let text = encode(&input);
        assert_eq!(text.len(), encoded_output_len(input.len()).unwrap());
        assert_eq!(decode(&text), input);
        input.push(n.wrapping_mul(37).wrapping_add(11));
    }
}

#[test]
fn output_lengths() {
    assert_eq!(encoded_output_len(0), Some(0));
    assert_eq!(encoded_output_len(1), Some(4));
    assert_eq!(encoded_output_len(3), Some(4));
    assert_eq!(encoded_output_len(4), Some(8));
    assert_eq!(encoded_output_len(usize::MAX / 4 * 3), Some(usize::MAX / 4 * 4));
    assert_eq!(encoded_output_len(usize::MAX / 4 * 3 + 1), None);
    assert_eq!(encoded_output_len(usize::MAX), None);
}

#[test]
fn b64encode_asks_and_fills() {
    let mut ts = ThreadState::from_raw(8, 16, 1);
    let data = buffer(&ts, b"hello");
    match standard_b64encode_query(&mut ts, &data) {
        Ok(SysQuery::BytesFromStringAndSize { data: None, len }) => assert_eq!(len, 8),
        other => panic!("{other:?}"),
    }
    let mut payload = [7u8; 8];
    let out = standard_b64encode(&mut ts, &Base64State, &data, 64, &mut payload).unwrap();
    assert_eq!(out.as_ptr(), 64);
    assert_eq!(&payload, b"aGVsbG8=");
    assert!(ts.take_calls().is_empty());
    assert!(!ts.exception_set());
}

#[test]
fn b64encode_passes_failure_on() {
    let mut ts = ThreadState::from_raw(8, 16, 1);
    let data = buffer(&ts, b"hello");
    ts.observe_exception(1);
    let mut payload = [7u8; 2];
    assert!(standard_b64encode(&mut ts, &Base64State, &data, 0, &mut payload).is_err());
    assert_eq!(payload, [7, 7]);
    assert!(ts.exception_set());
}

#[test]
fn bytes_that_are_too_large() {
    let mut ts = ThreadState::from_raw(8, 16, 1);
    let r = cpython_api_core::PyBytes::new_with_query(&mut ts, isize::MAX as usize + 1);
    assert!(r.is_err());
    assert_eq!(
        ts.hand_over_exception(),
        Some((ExcType::MemoryError, "bytes object is too large".to_string()))
    );
    assert!(cpython_api_core::PyBytes::new_with_query(&mut ts, isize::MAX as usize).is_ok());
}
