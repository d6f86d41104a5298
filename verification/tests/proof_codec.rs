use libproto::Proof;
use libproto::ProofError;

#[test]
fn short_content_has_exact_encoding() {
    let p = Proof::new(vec![1, 2, 3]);
    assert_eq!(p.encode(), vec![0x83, 1, 2, 3]);
}

#[test]
fn single_low_byte_encodes_to_itself() {
    let p = Proof::new(vec![0x7f]);
    assert_eq!(p.encode(), vec![0x7f]);
    let q = Proof::decode(&[0x7f]).unwrap();
    assert_eq!(q.content, vec![0x7f]);
}

#[test]
fn empty_content_round_trips() {
    let p = Proof::new(vec![]);
    let encoded = p.encode();
    assert_eq!(encoded, vec![0x80]);
    let decoded = Proof::decode(&encoded).unwrap();
    assert_eq!(decoded.content, p.content);
}

#[test]
fn decode_after_encode_is_identity() {
    let p = Proof::new(vec![0x80, 0, 1, 255, 7]);
    let decoded = Proof::decode(&p.encode()).unwrap();
    assert_eq!(decoded.content, p.content);
}

#[test]
fn long_content_round_trips() {
    let content: Vec<u8> = (0..200u8).collect();
    let p = Proof::new(content.clone());
    let encoded = p.encode();
    assert_eq!(encoded[0], 0xb8);
    assert_eq!(encoded[1], 200);
    let decoded = Proof::decode(&encoded).unwrap();
    assert_eq!(decoded.content, content);
}

#[test]
fn encode_after_decode_is_identity() {
    let bytes = vec![0x83, 9, 8, 7];
    let p = Proof::decode(&bytes).unwrap();
    assert_eq!(p.encode(), bytes);
}

#[test]
fn malformed_bytes_are_rejected() {
    // Empty input is no encoding at all.
    assert!(matches!(
        Proof::decode(&[]),
        Err(ProofError::MalformedProof)
    ));
    // A single byte above 0x7f claims a payload that is missing.
    assert!(matches!(
        Proof::decode(&[0x85]),
        Err(ProofError::MalformedProof)
    ));
    // A one-byte payload below 0x80 must be its own encoding.
    assert!(matches!(
        Proof::decode(&[0x81, 0x00]),
        Err(ProofError::MalformedProof)
    ));
    // Trailing bytes after a complete item are no encoding.
    assert!(matches!(
        Proof::decode(&[0x00, 0x00]),
        Err(ProofError::MalformedProof)
    ));
}
