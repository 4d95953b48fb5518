use smartcard::{
    build_ssh_rsa_blob, decode_ssh_rsa_body, parse_ssh_fields, pubkey_to_ssh, PublicKeyMaterial,
};

fn ssh_line(v: Vec<u8>, n: Vec<u8>) -> String {
    pubkey_to_ssh(&PublicKeyMaterial::Rsa { v, n }).unwrap()
}

fn blob_of_line(line: &str) -> Vec<u8> {
    let body = line.strip_prefix("ssh-rsa ").expect("line must start with the tag and a space");
    base64::decode(body).expect("body must be valid base64")
}

#[test]
fn round_trip_small_key() {
    let v = vec![0x01u8, 0x00, 0x01];
    let n = vec![0x00u8, 0xc3, 0x7f, 0x42];
    let line = ssh_line(v.clone(), n.clone());
    let blob = blob_of_line(&line);
    let (tag, fv, fn_) = parse_ssh_fields(&blob).expect("blob must parse into three fields");
    assert_eq!(tag, b"ssh-rsa".to_vec());
    assert_eq!(fv, v);
    assert_eq!(fn_, n);
}

#[test]
fn round_trip_empty_fields() {
    let line = ssh_line(Vec::new(), Vec::new());
    let blob = blob_of_line(&line);
    let (tag, fv, fn_) = parse_ssh_fields(&blob).expect("blob must parse into three fields");
    assert_eq!(tag, b"ssh-rsa".to_vec());
    assert!(fv.is_empty());
    assert!(fn_.is_empty());
}

#[test]
fn round_trip_various_lengths() {
    for (vl, nl) in [(1usize, 1usize), (3, 256), (17, 129), (0, 5), (5, 0)] {
        let v: Vec<u8> = (0..vl).map(|i| (i * 7 + 1) as u8).collect();
        let n: Vec<u8> = (0..nl).map(|i| (i * 13 + 2) as u8).collect();
        let line = ssh_line(v.clone(), n.clone());
        let blob = blob_of_line(&line);
        let (tag, fv, fn_) = parse_ssh_fields(&blob).expect("blob must parse into three fields");
        assert_eq!(tag, b"ssh-rsa".to_vec());
        assert_eq!(fv, v);
        assert_eq!(fn_, n);
    }
}

#[test]
fn decode_body_recovers_exponent_and_modulus() {
    let v = vec![0x01u8, 0x00, 0x01];
    let n = vec![0xeeu8, 0x11, 0x22, 0x33, 0x44];
    let line = ssh_line(v.clone(), n.clone());
    let body = line.strip_prefix("ssh-rsa ").unwrap();
    let (fv, fn_) = decode_ssh_rsa_body(body).expect("body must decode");
    assert_eq!(fv, v);
    assert_eq!(fn_, n);
}

#[test]
fn exact_line_for_known_key() {
    // Expected value computed independently of the library's builder.
    let v = vec![0x01u8, 0x00, 0x01];
    let n = vec![0x00u8, 0xab];
    let mut blob: Vec<u8> = Vec::new();
    blob.extend_from_slice(&7u32.to_be_bytes());
    blob.extend_from_slice(b"ssh-rsa");
    blob.extend_from_slice(&3u32.to_be_bytes());
    blob.extend_from_slice(&v);
    blob.extend_from_slice(&2u32.to_be_bytes());
    blob.extend_from_slice(&n);
    let expected = format!("ssh-rsa {}", base64::encode(&blob));
    assert_eq!(ssh_line(v, n), expected);
}

#[test]
fn blob_starts_with_tag_length() {
    // A 256-byte modulus and the exponent 65537.
    let v = vec![0x01u8, 0x00, 0x01];
    let n: Vec<u8> = (0..256).map(|i| (i % 251 + 1) as u8).collect();
    let line = ssh_line(v, n);
    assert!(line.starts_with("ssh-rsa "));
    let blob = blob_of_line(&line);
    assert_eq!(&blob[0..4], &[0x00, 0x00, 0x00, 0x07]);
}

#[test]
fn builder_matches_independent_blob() {
    let v = vec![9u8, 8, 7];
    let n = vec![1u8, 2];
    let blob = build_ssh_rsa_blob(&v, &n);
    let mut expected: Vec<u8> = Vec::new();
    expected.extend_from_slice(&[0, 0, 0, 7]);
    expected.extend_from_slice(b"ssh-rsa");
    expected.extend_from_slice(&[0, 0, 0, 3, 9, 8, 7]);
    expected.extend_from_slice(&[0, 0, 0, 2, 1, 2]);
    assert_eq!(blob, expected);
}

#[test]
fn non_rsa_keys_are_rejected() {
    let ec = pubkey_to_ssh(&PublicKeyMaterial::Ec);
    assert!(matches!(ec, Err(smartcard::SmartcardError::UnsupportedKeyType)));
    let other = pubkey_to_ssh(&PublicKeyMaterial::Other);
    assert!(matches!(other, Err(smartcard::SmartcardError::UnsupportedKeyType)));
}

#[test]
fn parse_rejects_malformed_blobs() {
    // Too short for a length prefix.
    assert!(parse_ssh_fields(&vec![0, 0, 0]).is_none());
    // Field length runs past the end.
    assert!(parse_ssh_fields(&vec![0, 0, 0, 9, 1, 2]).is_none());
    // Trailing bytes after the third field.
    let v = vec![1u8];
    let n = vec![2u8];
    let mut blob = build_ssh_rsa_blob(&v, &n);
    blob.push(0);
    assert!(parse_ssh_fields(&blob).is_none());
    // Empty input.
    assert!(parse_ssh_fields(&Vec::new()).is_none());
}

#[test]
fn decode_body_rejects_bad_input() {
    // Not base64 at all.
    assert!(decode_ssh_rsa_body("!!!not-base64!!!").is_none());
    // Valid base64 of a blob whose tag is not "ssh-rsa".
    let mut blob: Vec<u8> = Vec::new();
    blob.extend_from_slice(&[0, 0, 0, 7]);
    blob.extend_from_slice(b"ssh-dss");
    blob.extend_from_slice(&[0, 0, 0, 1, 1]);
    blob.extend_from_slice(&[0, 0, 0, 1, 2]);
    assert!(decode_ssh_rsa_body(&base64::encode(&blob)).is_none());
}

#[test]
fn decode_body_rejects_empty_body() {
    // "" is valid base64 for zero bytes, which is not a well-formed blob.
    assert!(decode_ssh_rsa_body("").is_none());
}

#[test]
fn tag_field_is_exactly_seven_bytes_of_tag() {
    let line = ssh_line(vec![1u8], vec![2u8]);
    let blob = blob_of_line(&line);
    assert_eq!(&blob[4..11], b"ssh-rsa");
}
