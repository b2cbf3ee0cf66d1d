use btc_ticker::text::{bytes_contain, text_contains, text_equals, trim_white_space};

#[test]
fn trim_removes_white_space_at_both_ends() {
    assert_eq!(trim_white_space("  127.0.0.1:7890\n"), "127.0.0.1:7890");
    assert_eq!(trim_white_space("\t\r\n"), "");
    assert_eq!(trim_white_space(""), "");
    assert_eq!(trim_white_space("a b"), "a b");
    assert_eq!(trim_white_space("\u{3000}代理\u{a0}"), "代理");
}

#[test]
fn trim_agrees_with_std_on_samples() {
    for s in ["", " ", " x ", "x", "\u{85}x\u{2029}", "\u{200b}x", " a\tb ", "\u{feff}x"] {
        assert_eq!(trim_white_space(s), s.trim(), "input {:?}", s);
    }
}

#[test]
fn trim_is_idempotent() {
    for s in ["  a  ", "\n\nb", "c\t", ""] {
        let once = trim_white_space(s);
        assert_eq!(trim_white_space(once), once);
    }
}

#[test]
fn text_equals_compares_characters() {
    assert!(text_equals("pong", "pong"));
    assert!(!text_equals("pong", "ping"));
    assert!(!text_equals("pong", "pongs"));
    assert!(text_equals("", ""));
}

#[test]
fn text_contains_finds_runs() {
    assert!(text_contains("execution error: 清除代理 (-128)", "清除代理"));
    assert!(!text_contains("User canceled. (-128)", "清除代理"));
    assert!(text_contains("abc", ""));
    assert!(!text_contains("", "a"));
}

#[test]
fn bytes_contain_finds_runs() {
    assert!(bytes_contain(b"HTTP/1.1 200 Connection established\r\n\r\n", b"200"));
    assert!(!bytes_contain(b"HTTP/1.1 407 Proxy Authentication Required", b"200"));
    assert!(bytes_contain(b"200", b"200"));
    assert!(!bytes_contain(b"20", b"200"));
}
