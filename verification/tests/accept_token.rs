use raw_socket_upgrade::accept::encode_digest;
use raw_socket_upgrade::sign;

#[test]
fn sign_reference_vector() {
    assert_eq!(
        sign(b"dGhlIHNhbXBsZSBub25jZQ=="),
        b"s3pPLMBiTxaQ9kYGzzhZRbK+xOo=".to_vec()
    );
}

#[test]
fn sign_other_key() {
    assert_eq!(
        sign(b"x3JJHMbDL1EzLkh9GBhXDw=="),
        b"HSmrc0sMlYUkAGmm5OPpG2HaGWk=".to_vec()
    );
}

#[test]
fn sign_empty_key() {
    // The digest is then that of the GUID alone.
    assert_eq!(sign(b""), b"Kfh9QIsMVZcl6xEPYxPHzW8SZ8w=".to_vec());
}

#[test]
fn sign_key_of_arbitrary_bytes() {
    assert_eq!(
        sign(&[0xff, 0x00, b'k', b'e', b'y']),
        b"s9E/1K3miiAt5tzOqaHQzYm18A8=".to_vec()
    );
}

#[test]
fn sign_is_deterministic() {
    let key = b"dGhlIHNhbXBsZSBub25jZQ==";
    assert_eq!(sign(key), sign(key));
}

#[test]
fn sign_differs_from_its_key() {
    let key = b"dGhlIHNhbXBsZSBub25jZQ==";
    assert_ne!(sign(key), key.to_vec());
}

#[test]
fn sign_gives_twenty_eight_characters() {
    for key in [&b""[..], &b"a"[..], &b"dGhlIHNhbXBsZSBub25jZQ=="[..], &[0u8; 100][..]] {
        let token = sign(key);
        assert_eq!(token.len(), 28);
        assert_eq!(token[27], b'=');
    }
}

#[test]
fn encode_digest_of_reference_digest() {
    let digest = [
        0xb3, 0x7a, 0x4f, 0x2c, 0xc0, 0x62, 0x4f, 0x16, 0x90, 0xf6, 0x46, 0x06, 0xcf, 0x38, 0x59,
        0x45, 0xb2, 0xbe, 0xc4, 0xea,
    ];
    assert_eq!(encode_digest(&digest), b"s3pPLMBiTxaQ9kYGzzhZRbK+xOo=".to_vec());
}

#[test]
fn encode_digest_pads_to_four() {
    assert_eq!(encode_digest(b""), b"".to_vec());
    assert_eq!(encode_digest(b"f"), b"Zg==".to_vec());
    assert_eq!(encode_digest(b"fo"), b"Zm8=".to_vec());
    assert_eq!(encode_digest(b"foo"), b"Zm9v".to_vec());
    assert_eq!(encode_digest(b"foob"), b"Zm9vYg==".to_vec());
    assert_eq!(encode_digest(b"fooba"), b"Zm9vYmE=".to_vec());
    assert_eq!(encode_digest(b"foobar"), b"Zm9vYmFy".to_vec());
}

#[test]
fn encode_digest_uses_the_standard_alphabet() {
    assert_eq!(encode_digest(&[0xfb, 0xff, 0xbe]), b"+/++".to_vec());
    assert_eq!(encode_digest(&[0xff, 0xff, 0xff]), b"////".to_vec());
    assert_eq!(encode_digest(&[0x00, 0x00, 0x00]), b"AAAA".to_vec());
    let all = [
        0x00, 0x10, 0x83, 0x10, 0x51, 0x87, 0x20, 0x92, 0x8b, 0x30, 0xd3, 0x8f, 0x41, 0x14, 0x93,
        0x51, 0x55, 0x97, 0x61, 0x96, 0x9b, 0x71, 0xd7, 0x9f, 0x82, 0x18, 0xa3, 0x92, 0x59, 0xa7,
        0xa2, 0x9a, 0xab, 0xb2, 0xdb, 0xaf, 0xc3, 0x1c, 0xb3, 0xd3, 0x5d, 0xb7, 0xe3, 0x9e, 0xbb,
        0xf3, 0xdf, 0xbf,
    ];
    assert_eq!(
        encode_digest(&all),
        b"ABCDEFGHIJKLMNOPQRSTUVWXYZabcdefghijklmnopqrstuvwxyz0123456789+/".to_vec()
    );
}
