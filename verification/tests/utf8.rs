use video_transcode::utf8::is_valid_utf8;

fn cases() -> Vec<Vec<u8>> {
    vec![
        vec![],
        b"plain ascii /path/file.mp4".to_vec(),
        "héllo wörld".as_bytes().to_vec(),
        "サンプル動画".as_bytes().to_vec(),
        "\u{10FFFF}\u{0080}\u{0800}\u{FFFD}".as_bytes().to_vec(),
        vec![0x7F],
        vec![0x80],
        vec![0xBF],
        vec![0xC0, 0x80],
        vec![0xC1, 0xBF],
        vec![0xC2],
        vec![0xC2, 0x7F],
        vec![0xC2, 0x80],
        vec![0xC2, 0xC0],
        vec![0xDF, 0xBF],
        vec![0xE0, 0x9F, 0xBF],
        vec![0xE0, 0xA0, 0x80],
        vec![0xE0, 0xA0],
        vec![0xED, 0x9F, 0xBF],
        vec![0xED, 0xA0, 0x80],
        vec![0xED, 0xBF, 0xBF],
        vec![0xEE, 0x80, 0x80],
        vec![0xEF, 0xBF, 0xBF],
        vec![0xF0, 0x8F, 0xBF, 0xBF],
        vec![0xF0, 0x90, 0x80, 0x80],
        vec![0xF0, 0x90, 0x80],
        vec![0xF4, 0x8F, 0xBF, 0xBF],
        vec![0xF4, 0x90, 0x80, 0x80],
        vec![0xF5, 0x80, 0x80, 0x80],
        vec![0xFE],
        vec![0xFF],
        vec![0x61, 0xC2, 0x80, 0xE0, 0xA0, 0x80, 0xF0, 0x90, 0x80, 0x80, 0x62],
        vec![0x61, 0xE2, 0x82, 0xAC, 0xFF],
    ]
}

#[test]
fn agrees_with_std_utf8_decoder() {
    for case in cases() {
        let expected = std::str::from_utf8(&case).is_ok();
        assert_eq!(is_valid_utf8(&case), expected, "disagrees on {case:?}");
    }
}

#[test]
fn ascii_and_multibyte_accepted() {
    assert!(is_valid_utf8(&b"abc/123.mp4".to_vec()));
    assert!(is_valid_utf8(&"漢字".as_bytes().to_vec()));
}

#[test]
fn stray_continuation_and_truncation_rejected() {
    assert!(!is_valid_utf8(&vec![0x80]));
    assert!(!is_valid_utf8(&vec![0xE2, 0x82]));
    assert!(!is_valid_utf8(&vec![0xF0, 0x9F, 0x98]));
}
