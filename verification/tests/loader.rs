//! Image loader tests: the hex-text format, its error cases, and the raw
//! binary format.

use riscv_vm::memory::{parse_hex_word, Memory};

#[test]
fn parse_hex_word_values() {
    assert_eq!(parse_hex_word("0"), Some(0));
    assert_eq!(parse_hex_word("00500093"), Some(0x0050_0093));
    assert_eq!(parse_hex_word("deadbeef"), Some(0xDEAD_BEEF));
    assert_eq!(parse_hex_word("DEADBEEF"), Some(0xDEAD_BEEF));
    assert_eq!(parse_hex_word("ffffffff"), Some(0xFFFF_FFFF));
    // Leading zeros may push the digit count past eight.
    assert_eq!(parse_hex_word("000000001"), Some(1));
}

#[test]
fn parse_hex_word_rejects_malformed_lines() {
    assert_eq!(parse_hex_word(""), None);
    assert_eq!(parse_hex_word("12g4"), None);
    assert_eq!(parse_hex_word("0x12"), None); // no prefix allowed
    assert_eq!(parse_hex_word("+12"), None);
    assert_eq!(parse_hex_word(" 12"), None);
    // Nine significant digits exceed 32 bits.
    assert_eq!(parse_hex_word("100000000"), None);
}

#[test]
fn hex_image_packs_each_line() {
    let mut mem = Memory::new();
    let lines = vec!["00500093".to_string(), "002081B3".to_string(), "DEADBEEF".to_string()];
    assert_eq!(mem.load_from_hex_lines(&lines), Ok(()));
    // Three lines give twelve bytes.
    assert_eq!(mem.get_size(), 12);
    // Each word reads back as the line's value (little-endian packing).
    assert_eq!(mem.read_32bit(0), Ok(0x0050_0093));
    assert_eq!(mem.read_32bit(4), Ok(0x0020_81B3));
    assert_eq!(mem.read_32bit(8), Ok(0xDEAD_BEEF));
    assert_eq!(mem.read_8bit(0), Ok(0x93));
    assert_eq!(mem.read_8bit(3), Ok(0x00));
}

#[test]
fn hex_image_respects_big_endian_mode() {
    let mut mem = Memory::new();
    mem.make_big_endian();
    let lines = vec!["01020304".to_string()];
    assert_eq!(mem.load_from_hex_lines(&lines), Ok(()));
    assert_eq!(mem.read_8bit(0), Ok(0x01));
    assert_eq!(mem.read_8bit(3), Ok(0x04));
    assert_eq!(mem.read_32bit(0), Ok(0x0102_0304));
}

#[test]
fn malformed_hex_line_leaves_memory_unloaded() {
    let mut mem = Memory::new();
    let lines = vec!["00500093".to_string(), "nothex".to_string(), "002081B3".to_string()];
    assert_eq!(mem.load_from_hex_lines(&lines), Err(()));
    // Nothing was loaded, not even the valid first line.
    assert_eq!(mem.get_size(), 0);
}

#[test]
fn empty_hex_image_is_valid_and_empty() {
    let mut mem = Memory::new();
    let lines: Vec<String> = Vec::new();
    assert_eq!(mem.load_from_hex_lines(&lines), Ok(()));
    assert_eq!(mem.get_size(), 0);
}

#[test]
fn binary_image_loads_verbatim() {
    let mut mem = Memory::new();
    mem.load_from_bytes(vec![0x93, 0x00, 0x50, 0x00, 0xAA]);
    assert_eq!(mem.get_size(), 5);
    assert_eq!(mem.read_32bit(0), Ok(0x0050_0093));
    assert_eq!(mem.read_8bit(4), Ok(0xAA));
}
