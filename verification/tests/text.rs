use multitenant_worker::text::trim;

#[test]
fn trim_removes_unicode_white_space_only() {
    assert_eq!(trim("\u{3000}\u{85} Eng\t\u{2003}\u{a0}"), "Eng");
    assert_eq!(trim("\u{200b}x\u{200b}"), "\u{200b}x\u{200b}");
    assert_eq!(trim(" \n\r "), "");
    assert_eq!(trim("a b"), "a b");
}

#[test]
fn trim_agrees_with_std() {
    for s in ["  x  ", "\u{1680}y\u{205f}", "\u{2028}z\u{2029}", "\u{202f}w\u{feff}", "\u{180e}v"] {
        assert_eq!(trim(s), s.trim());
    }
}
