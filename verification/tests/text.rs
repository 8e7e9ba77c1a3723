use integritas_edge::encoding::{decode_hex, encode_hex};
use integritas_edge::text::{str_is_blank, strip_hex_prefix_str, trim_end_slashes, truncate};

#[test]
fn truncate_keeps_text_that_fits() {
    assert_eq!(truncate("", 0), "");
    assert_eq!(truncate("abc", 3), "abc");
    assert_eq!(truncate("héllo", 6), "héllo");
}

#[test]
fn truncate_counts_bytes_not_characters() {
    // "é" is two bytes: the first three bytes are "hé".
    assert_eq!(truncate("héllo", 3), "hé…");
    assert_eq!(truncate("abcdef", 0), "…");
    assert_eq!(truncate("abcdef", 4), "abcd…");
}

#[test]
fn blank_strings() {
    assert!(str_is_blank(""));
    assert!(str_is_blank(" \t\r\n"));
    assert!(str_is_blank("\u{a0}\u{2003}\u{3000}"));
    assert!(!str_is_blank(" k "));
    assert!(!str_is_blank("\u{200b}"));
}

#[test]
fn trailing_slashes() {
    assert_eq!(trim_end_slashes("https://a.b/"), "https://a.b");
    assert_eq!(trim_end_slashes("https://a.b"), "https://a.b");
    assert_eq!(trim_end_slashes("///"), "");
    assert_eq!(trim_end_slashes("a/b//"), "a/b");
}

#[test]
fn hex_prefix() {
    assert_eq!(strip_hex_prefix_str("0xab"), "ab");
    assert_eq!(strip_hex_prefix_str("0Xab"), "0Xab");
    assert_eq!(strip_hex_prefix_str("ab"), "ab");
    assert_eq!(strip_hex_prefix_str("0x"), "");
}

#[test]
fn hex_round_trip() {
    let bytes = [0u8, 1, 0x7f, 0x80, 0xff, 0x5a];
    let text = encode_hex(&bytes);
    assert_eq!(text, "00017f80ff5a");
    assert_eq!(decode_hex(&text), Some(bytes.to_vec()));
    assert_eq!(decode_hex("DEADbeef"), Some(vec![0xde, 0xad, 0xbe, 0xef]));
    assert_eq!(decode_hex("abc"), None);
    assert_eq!(decode_hex("zz"), None);
    assert_eq!(decode_hex("é0"), None);
    assert_eq!(decode_hex(""), Some(vec![]));
}

#[test]
fn truncate_twice_is_truncate_once() {
    for (text, max) in [("héllo wörld", 3usize), ("abcdef", 4), ("hi", 10), ("", 0)] {
        let once = truncate(text, max);
        assert_eq!(truncate(&once, max), once);
    }
}
