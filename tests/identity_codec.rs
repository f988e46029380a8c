use rsnav_proto::{Error, Identity, Version};

fn encode(i: &Identity) -> Vec<u8> {
    let mut out = Vec::new();
    i.serialize(&mut out);
    out
}

#[test]
fn identity_round_trip() {
    let i = Identity { name: "Tr\u{fc}nk-\u{4e2d}".to_string(), version: Version::new(63, 63, 15), num_cmds: 255 };
    let bytes = encode(&i);
    let (back, n) = Identity::deserialize(&bytes).unwrap();
    assert_eq!(n, bytes.len());
    assert_eq!(back, i);
}

#[test]
fn identity_empty_name_round_trip() {
    let i = Identity { name: String::new(), version: Version(0), num_cmds: 0 };
    let bytes = encode(&i);
    assert_eq!(bytes, vec![0, 0, 0, 0]);
    assert_eq!(Identity::deserialize(&bytes), Ok((i, 4)));
}

#[test]
fn identity_wire_bytes() {
    let i = Identity { name: "\u{e9}".to_string(), version: Version(0xabcd), num_cmds: 7 };
    assert_eq!(encode(&i), vec![0xcd, 0xab, 7, 2, 0xc3, 0xa9]);
}

#[test]
fn identity_num_cmds_truncated_to_a_byte() {
    let i = Identity { name: "x".to_string(), version: Version(1), num_cmds: 300 };
    assert_eq!(encode(&i), vec![1, 0, 44, 1, b'x']);
}

#[test]
fn identity_name_length_from_length_byte() {
    let (i, n) = Identity::deserialize(&[1, 0, 3, 2, b'o', b'k', b'!', b'!']).unwrap();
    assert_eq!(n, 6);
    assert_eq!(i.name, "ok");
    assert_eq!(i.num_cmds, 3);
    assert_eq!(i.version, Version(1));
}

#[test]
fn identity_short_input_fails() {
    assert_eq!(Identity::deserialize(&[]), Err(Error::IdentityDeserialize));
    assert_eq!(Identity::deserialize(&[1, 0, 3]), Err(Error::IdentityDeserialize));
    assert_eq!(Identity::deserialize(&[1, 0, 3, 2, b'o']), Err(Error::IdentityDeserialize));
}

#[test]
fn identity_invalid_utf8_fails() {
    assert_eq!(Identity::deserialize(&[1, 0, 3, 1, 0xff]), Err(Error::IdentityInvalidName));
    // an encoded surrogate is not UTF-8
    assert_eq!(
        Identity::deserialize(&[1, 0, 3, 3, 0xed, 0xa0, 0x80]),
        Err(Error::IdentityInvalidName)
    );
}
