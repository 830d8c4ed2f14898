use serenity_engine::encoding::{
    c_str_bytes, c_str_len, c_str_text, decode_wide, encode_wide_path, nul_terminated,
};

#[test]
fn wide_path_of_ascii_is_terminated() {
    let units = encode_wide_path("ab").unwrap();
    assert_eq!(units, vec![0x61u16, 0x62, 0]);
}

#[test]
fn wide_path_of_reference_shader_file() {
    let units = encode_wide_path("shaders/hello_triangle.hlsl").unwrap();
    let expected: Vec<u16> = "shaders/hello_triangle.hlsl\0".bytes().map(u16::from).collect();
    assert_eq!(units.len(), 28);
    assert_eq!(units, expected);
}

#[test]
fn wide_path_of_empty_string_is_one_nul() {
    assert_eq!(encode_wide_path("").unwrap(), vec![0u16]);
}

#[test]
fn wide_path_encodes_above_basic_plane_as_surrogates() {
    let units = encode_wide_path("a\u{1F600}b").unwrap();
    assert_eq!(units, vec![0x61u16, 0xD83D, 0xDE00, 0x62, 0]);
}

#[test]
fn wide_path_encodes_basic_plane_as_one_unit() {
    let units = encode_wide_path("\u{e9}\u{20AC}\u{FFFF}").unwrap();
    assert_eq!(units, vec![0x00E9u16, 0x20AC, 0xFFFF, 0]);
}

#[test]
fn wide_path_keeps_a_final_nul_without_adding_one() {
    assert_eq!(encode_wide_path("ab\0").unwrap(), vec![0x61u16, 0x62, 0]);
}

#[test]
fn wide_path_refuses_interior_nul_with_its_unit_position() {
    assert_eq!(encode_wide_path("My\0String"), Err(2));
    assert_eq!(encode_wide_path("\0a"), Err(0));
    assert_eq!(encode_wide_path("a\0\0"), Err(1));
    assert_eq!(encode_wide_path("\u{1F600}\0x"), Err(2));
}

#[test]
fn nul_terminated_appends_one_nul() {
    assert_eq!(nul_terminated("vs_main"), b"vs_main\0".to_vec());
    assert_eq!(nul_terminated(""), vec![0u8]);
}

#[test]
fn c_str_len_stops_at_first_nul() {
    assert_eq!(c_str_len(&b"abc\0def\0".to_vec()), 3);
    assert_eq!(c_str_len(&b"abc".to_vec()), 3);
    assert_eq!(c_str_len(&b"\0abc".to_vec()), 0);
    assert_eq!(c_str_len(&Vec::new()), 0);
}

#[test]
fn c_str_bytes_drops_terminator_and_rest() {
    assert_eq!(c_str_bytes(&b"abc\0def\0".to_vec()), b"abc".to_vec());
    assert_eq!(c_str_bytes(&b"abc".to_vec()), b"abc".to_vec());
    assert_eq!(c_str_bytes(&vec![0u8]), Vec::<u8>::new());
}

#[test]
fn c_str_text_decodes_utf8() {
    assert_eq!(c_str_text(&b"error X3000\0".to_vec()), Some("error X3000".to_string()));
    assert_eq!(
        c_str_text(&vec![0xE2, 0x82, 0xAC, 0x21, 0x00, 0xFF]),
        Some("\u{20AC}!".to_string())
    );
    assert_eq!(c_str_text(&vec![0u8]), Some(String::new()));
}

#[test]
fn c_str_text_refuses_invalid_utf8() {
    assert_eq!(c_str_text(&vec![0x61, 0xFF, 0x00]), None);
    assert_eq!(c_str_text(&vec![0xC3]), None);
    assert_eq!(c_str_text(&vec![0xED, 0xA0, 0x80, 0x00]), None);
}

#[test]
fn decode_wide_reads_basic_plane_and_surrogate_pairs() {
    assert_eq!(decode_wide(&vec![0x61u16, 0x62]), Some("ab".to_string()));
    assert_eq!(decode_wide(&vec![0xD83Du16, 0xDE00]), Some("\u{1F600}".to_string()));
    assert_eq!(decode_wide(&vec![0xDBFFu16, 0xDFFF]), Some("\u{10FFFF}".to_string()));
    assert_eq!(decode_wide(&vec![0xD800u16, 0xDC00]), Some("\u{10000}".to_string()));
    assert_eq!(decode_wide(&vec![0xFFFFu16, 0xE000, 0xD7FF]), Some("\u{FFFF}\u{E000}\u{D7FF}".to_string()));
    assert_eq!(decode_wide(&Vec::new()), Some(String::new()));
}

#[test]
fn decode_wide_keeps_nul_units() {
    assert_eq!(decode_wide(&vec![0x61u16, 0, 0]), Some("a\0\0".to_string()));
}

#[test]
fn decode_wide_refuses_unpaired_surrogates() {
    assert_eq!(decode_wide(&vec![0xD800u16]), None);
    assert_eq!(decode_wide(&vec![0xDC00u16, 0xD800]), None);
    assert_eq!(decode_wide(&vec![0x61u16, 0xDFFF, 0x62]), None);
    assert_eq!(decode_wide(&vec![0xD800u16, 0xD800, 0xDC00]), None);
}

#[test]
fn decode_wide_undoes_encode_wide_path() {
    for text in ["", "a", "shaders/hello_triangle.hlsl", "\u{e9}\u{20AC}\u{1F600}\u{10FFFF}"] {
        let mut units = encode_wide_path(text).unwrap();
        assert_eq!(units.pop(), Some(0));
        assert_eq!(decode_wide(&units), Some(text.to_string()));
    }
}
