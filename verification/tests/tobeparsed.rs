use aes::cipher::{KeyIvInit, StreamCipher};
use ani_cli::allanime::{decode_tobeparsed, get_allanime_key, hex_lower_ascii_bytes};
use ani_cli::provider::is_filemoon_source;
use base64::Engine;
use sha2::Digest;

fn sealed(plain: &[u8], nonce: [u8; 12]) -> String {
    let key = sha2::Sha256::digest(b"Xot36i3lK3:v1");
    let mut counter = nonce.to_vec();
    counter.extend_from_slice(&[0, 0, 0, 2]);
    let mut body = plain.to_vec();
    let mut cipher = ctr::Ctr128BE::<aes::Aes256>::new_from_slices(&key, &counter).unwrap();
    cipher.apply_keystream(&mut body);
    let mut data = vec![1u8];
    data.extend_from_slice(&nonce);
    data.extend_from_slice(&body);
    data.extend_from_slice(&[0u8; 16]);
    base64::prelude::BASE64_STANDARD.encode(&data)
}

#[test]
fn decrypts_tobeparsed_payload() {
    let plain = br#"[{"sourceUrl":"--504c4c48","sourceName":"Default"},{"sourceUrl":"--175b54575b53","sourceName":"Yt"}]"#;
    let blob = sealed(plain, [3, 1, 4, 1, 5, 9, 2, 6, 5, 3, 5, 8]);
    assert_eq!(
        decode_tobeparsed(&blob).unwrap(),
        vec![
            ("Default".to_string(), "http".to_string()),
            ("Yt".to_string(), "/clock.json".to_string()),
        ]
    );
}

#[test]
fn tobeparsed_errors() {
    let short = base64::prelude::BASE64_STANDARD.encode([0u8; 28]);
    assert_eq!(decode_tobeparsed(&short).err().as_deref(), Some("Payload too short"));
    let bad = decode_tobeparsed("not base64!").err().unwrap();
    assert!(bad.starts_with("Base64 decode failed: "));
}

#[test]
fn filemoon_sources_by_name() {
    assert!(is_filemoon_source("Fm-mp4"));
    assert!(is_filemoon_source("FileMoon"));
    assert!(!is_filemoon_source("Default"));
}

#[test]
fn allanime_key_is_hex_sha256() {
    let digest = sha2::Sha256::digest(b"Xot36i3lK3:v1");
    let expected: String = digest.iter().map(|b| format!("{:02x}", b)).collect();
    let key = get_allanime_key();
    assert_eq!(key.len(), 64);
    assert_eq!(String::from_utf8(key).unwrap(), expected);
    assert_eq!(hex_lower_ascii_bytes(&[0x0a, 0xff]), b"0aff".to_vec());
}
