//! The replay envelope and the compressed upload body.

use std::io::Read;

use slippi_ext::envelope::{add_slp_header_and_footer, strip_slp_header_and_footer};
use slippi_ext::upload::build_upload_body;

fn gunzip(data: &[u8]) -> Vec<u8> {
    let mut decoder = flate2::read::GzDecoder::new(data);
    let mut out = Vec::new();
    decoder.read_to_end(&mut out).expect("gzip stream must decompress");
    out
}

#[test]
fn envelope_layout_is_exact() {
    let data = vec![1u8, 2, 3];
    let env = add_slp_header_and_footer(&data);
    let mut expected = vec![
        0x7bu8, 0x55, 0x03, 0x72, 0x61, 0x77, 0x5b, 0x24, 0x55, 0x23, 0x6c, // header
        0x00, 0x00, 0x00, 0x03, // big-endian length
        1, 2, 3, // raw bytes
    ];
    expected.extend_from_slice(&[
        0x55, 0x08, 0x6d, 0x65, 0x74, 0x61, 0x64, 0x61, 0x74, 0x61, 0x7b, 0x7d, 0x7d,
    ]);
    assert_eq!(env, expected);
}

#[test]
fn envelope_header_matches_ascii_tokens() {
    let env = add_slp_header_and_footer(&Vec::new());
    assert_eq!(&env[0..2], b"{U");
    assert_eq!(env[2], 3);
    assert_eq!(&env[3..11], b"raw[$U#l");
    assert_eq!(&env[11..15], [0, 0, 0, 0]);
    assert_eq!(&env[15..17], [b'U', 8]);
    assert_eq!(&env[17..28], b"metadata{}}");
}

#[test]
fn envelope_strip_inverts_build() {
    let data: Vec<u8> = (0u8..=255).cycle().take(1000).collect();
    let env = add_slp_header_and_footer(&data);
    let stripped = strip_slp_header_and_footer(&env).expect("well-formed envelope");
    assert_eq!(stripped, data);
}

#[test]
fn envelope_strip_rejects_damage() {
    let data = vec![9u8; 40];
    let mut env = add_slp_header_and_footer(&data);
    env[0] = 0x00;
    assert!(strip_slp_header_and_footer(&env).is_none());
    assert!(strip_slp_header_and_footer(&vec![1u8, 2, 3]).is_none());
}

#[test]
fn upload_round_trip_empty_input() {
    let raw: Vec<u8> = Vec::new();
    let body = build_upload_body(&raw).expect("compression of empty input");
    let enveloped = gunzip(&body);
    let stripped = strip_slp_header_and_footer(&enveloped).expect("well-formed envelope");
    assert_eq!(stripped, raw);
}

#[test]
fn upload_round_trip_large_input() {
    // Over a megabyte of non-uniform bytes.
    let raw: Vec<u8> = (0..1_200_000u32).map(|i| (i * 31 + i / 257) as u8).collect();
    let body = build_upload_body(&raw).expect("compression of large input");
    let enveloped = gunzip(&body);
    assert_eq!(enveloped.len(), raw.len() + 28);
    let stripped = strip_slp_header_and_footer(&enveloped).expect("well-formed envelope");
    assert_eq!(stripped, raw);
}

#[test]
fn upload_body_is_compressed_not_raw() {
    let raw = vec![7u8; 4096];
    let body = build_upload_body(&raw).expect("compression");
    // A run of identical bytes compresses far below the envelope size, so
    // the builder cannot have handed its input back unchanged.
    assert!(body.len() < raw.len() / 2);
    assert_ne!(body, add_slp_header_and_footer(&raw));
    // The gzip magic opens the stream.
    assert_eq!(&body[0..2], [0x1f, 0x8b]);
}
