use std::collections::HashMap;

use myloginrs::decode::{decode_text, read_encrypted_file};
use myloginrs::error::LoginError;
use myloginrs::frame::FrameCursor;
use myloginrs::path::login_file_path;
use myloginrs::read_key;
use myloginrs::section::{parse_file, parse_text};

const BLOB: [u8; 20] = [
    0x11, 0x22, 0x33, 0x44, 0x55, 0x66, 0x77, 0x88, 0x99, 0xaa, 0xbb, 0xcc, 0xdd, 0xee, 0xff,
    0x01, 0x0f, 0x1e, 0x2d, 0x3c,
];

fn fold(blob: &[u8; 20]) -> [u8; 16] {
    let mut key = [0u8; 16];
    for (i, b) in blob.iter().enumerate() {
        key[i % 16] ^= *b;
    }
    key
}

fn frame(key: &[u8; 16], plain: &[u8]) -> Vec<u8> {
    let cipher = openssl::symm::Cipher::aes_128_ecb();
    let ct = openssl::symm::encrypt(cipher, key, None, plain).unwrap();
    let mut out = (ct.len() as u32).to_le_bytes().to_vec();
    out.extend_from_slice(&ct);
    out
}

/// A login file holding `text` one line per frame, as the vendor's tool writes it.
fn login_file(blob: &[u8; 20], text: &str) -> Vec<u8> {
    let key = fold(blob);
    let mut out = vec![0u8; 4];
    out.extend_from_slice(blob);
    for line in text.split_inclusive('\n') {
        out.extend_from_slice(&frame(&key, line.as_bytes()));
    }
    out
}

const CLIENT_TEXT: &str = "[client]\n\
    user = localuser\n\
    password = abc123\n\
    host = localhost\n\
    port = 1234\n";

#[test]
fn test_read() {
    let file = login_file(&BLOB, CLIENT_TEXT);
    let output_str = "[client]\n\
        user = localuser\n\
        password = abc123\n\
        host = localhost\n\
        port = 1234\n";

    assert_eq!(decode_text(&file), Ok(String::from(output_str)));
}

#[test]
fn test_parse() {
    let login_path = "client";
    let file = login_file(&BLOB, CLIENT_TEXT);
    let output_map: HashMap<String, String> = vec![
        (String::from("user"), String::from("localuser")),
        (String::from("password"), String::from("abc123")),
        (String::from("host"), String::from("localhost")),
        (String::from("port"), String::from("1234")),
    ]
    .into_iter()
    .collect();

    let pairs = parse_file(login_path, &file).unwrap();
    let map: HashMap<String, String> = pairs.into_iter().collect();
    assert_eq!(map, output_map);
}

#[test]
fn test_get_login_path_file_from_env() {
    let path = login_file_path(
        None,
        Some(String::from("my_file_path")),
        String::from("/home/u/.mylogin.cnf"),
    );
    assert_eq!(path, String::from("my_file_path"));
}

#[test]
fn path_explicit_wins_over_override() {
    let path = login_file_path(
        Some(String::from("given.cnf")),
        Some(String::from("my_file_path")),
        String::from("/home/u/.mylogin.cnf"),
    );
    assert_eq!(path, "given.cnf");
}

#[test]
fn path_default_without_override() {
    let path = login_file_path(None, None, String::from("/home/u/.mylogin.cnf"));
    assert_eq!(path, "/home/u/.mylogin.cnf");
}

#[test]
fn key_fold_exact_value() {
    let mut blob = [0u8; 20];
    for (i, b) in blob.iter_mut().enumerate() {
        *b = i as u8 + 1;
    }
    let key = read_key(&blob);
    assert_eq!(
        key,
        [1 ^ 17, 2 ^ 18, 3 ^ 19, 4 ^ 20, 5, 6, 7, 8, 9, 10, 11, 12, 13, 14, 15, 16]
    );
    assert_eq!(read_key(&BLOB), fold(&BLOB));
}

#[test]
fn decode_is_deterministic() {
    let file = login_file(&BLOB, CLIENT_TEXT);
    let first = read_encrypted_file(&file).unwrap();
    let second = read_encrypted_file(&file.clone()).unwrap();
    assert_eq!(first, second);
    assert_eq!(first, CLIENT_TEXT.as_bytes().to_vec());
}

#[test]
fn round_trip_with_multi_block_frames() {
    let text = "[backup]\nuser = a_rather_long_user_name_that_spans_blocks\npassword = x\n";
    let blob = [7u8; 20];
    let key = fold(&blob);
    let mut file = vec![9u8; 4];
    file.extend_from_slice(&blob);
    file.extend_from_slice(&frame(&key, text.as_bytes()));
    file.extend_from_slice(&[0, 0, 0, 0]);
    assert_eq!(decode_text(&file), Ok(String::from(text)));
}

#[test]
fn short_stream_is_empty() {
    let mut file = vec![0u8; 24];
    assert_eq!(read_encrypted_file(&file), Ok(Vec::new()));
    file.extend_from_slice(&[5, 0, 0, 0]);
    assert_eq!(read_encrypted_file(&file), Ok(Vec::new()));
    assert_eq!(decode_text(&file), Ok(String::new()));
}

#[test]
fn truncated_header_is_format_error() {
    assert_eq!(read_encrypted_file(&[]), Err(LoginError::Format));
    assert_eq!(read_encrypted_file(&[0u8; 23]), Err(LoginError::Format));
}

#[test]
fn first_frame_overrun_is_format_error() {
    let mut file = vec![0u8; 24];
    file.extend_from_slice(&[17, 0, 0, 0]);
    file.extend_from_slice(&[0u8; 16]);
    assert_eq!(read_encrypted_file(&file), Err(LoginError::Format));
    let mut huge = vec![0u8; 24];
    huge.extend_from_slice(&[0xff, 0xff, 0xff, 0xff, 1]);
    assert_eq!(decode_text(&huge), Err(LoginError::Format));
}

#[test]
fn later_frame_overrun_is_format_error() {
    let mut file = login_file(&BLOB, "[client]\n");
    file.extend_from_slice(&[32, 0, 0, 0]);
    file.extend_from_slice(&[0u8; 16]);
    assert_eq!(read_encrypted_file(&file), Err(LoginError::Format));
}

#[test]
fn altered_key_blob_is_crypto_error() {
    let mut file = login_file(&BLOB, CLIENT_TEXT);
    file[4] ^= 0x5a;
    assert_eq!(read_encrypted_file(&file), Err(LoginError::Crypto));
}

#[test]
fn unaligned_frame_is_crypto_error() {
    let mut file = vec![0u8; 24];
    file.extend_from_slice(&[5, 0, 0, 0]);
    file.extend_from_slice(&[1, 2, 3, 4, 5]);
    assert_eq!(read_encrypted_file(&file), Err(LoginError::Crypto));
}

#[test]
fn invalid_utf8_is_encoding_error() {
    let key = fold(&BLOB);
    let mut file = vec![0u8; 4];
    file.extend_from_slice(&BLOB);
    file.extend_from_slice(&frame(&key, &[0x66, 0xff, 0xfe]));
    assert_eq!(read_encrypted_file(&file), Ok(vec![0x66, 0xff, 0xfe]));
    assert_eq!(decode_text(&file), Err(LoginError::Encoding));
}

#[test]
fn missing_section_is_reported() {
    let file = login_file(&BLOB, CLIENT_TEXT);
    assert_eq!(parse_file("server", &file), Err(LoginError::SectionNotFound));
}

#[test]
fn malformed_text_is_syntax_error() {
    assert_eq!(parse_text("client", "[client\nuser = a\n"), Err(LoginError::Syntax));
}

#[test]
fn section_pairs_keep_order() {
    let pairs = parse_text("b", "[a]\nx = 1\n[b]\nk = v\nz = 2\n").unwrap();
    assert_eq!(
        pairs,
        vec![
            (String::from("k"), String::from("v")),
            (String::from("z"), String::from("2"))
        ]
    );
}

#[test]
fn frame_cursor_walks_frames() {
    let data = [0u8, 0, 2, 0, 0, 0, 7, 8, 1, 0, 0, 0, 9, 0, 0];
    let mut cursor = FrameCursor::new(&data, 2);
    assert_eq!(cursor.next_frame(), Ok(Some((6, 2))));
    assert_eq!(cursor.pos, 8);
    assert_eq!(cursor.next_frame(), Ok(Some((12, 1))));
    assert_eq!(cursor.next_frame(), Ok(None));
    assert_eq!(cursor.pos, 13);
}
