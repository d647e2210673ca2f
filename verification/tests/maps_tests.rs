use moonwave::maps::{base_in_line, is_white_char, module_base_in_maps, parse_hex_usize};

fn hex(s: &str) -> Option<usize> {
    parse_hex_usize(&s.chars().collect())
}

#[test]
fn hex_parsing_follows_from_str_radix() {
    for s in ["", "+", "-", "-1", "ff", "FF", "+1a", "g", "7f12a000", "0", "00ff", "1 ", " 1", "+-1"] {
        assert_eq!(hex(s), usize::from_str_radix(s, 16).ok(), "input {:?}", s);
    }
}

#[test]
fn hex_parsing_limits() {
    let max = format!("{:x}", usize::MAX);
    assert_eq!(hex(&max), Some(usize::MAX));
    let over = format!("1{}", "0".repeat(max.len()));
    assert_eq!(hex(&over), None);
}

#[test]
fn whitespace_is_unicode_whitespace() {
    for c in ['\t', '\n', '\u{b}', '\u{c}', '\r', ' ', '\u{85}', '\u{a0}', '\u{1680}', '\u{2000}', '\u{200a}', '\u{2028}', '\u{2029}', '\u{202f}', '\u{205f}', '\u{3000}', 'a', '-', '\u{200b}', '\u{180e}'] {
        assert_eq!(is_white_char(c), c.is_whitespace(), "char {:?}", c);
    }
}

#[test]
fn base_of_a_maps_line() {
    let line = "7f12a000-7f12b000 r-xp 00000000 fd:01 1234 /data/app/lib/arm64/libUE4.so";
    assert_eq!(base_in_line(line, "libUE4.so"), Some(0x7f12a000));
    assert_eq!(base_in_line(line, "libEOSSDK.so"), None);
    assert_eq!(base_in_line("  \t7f00-8f00 r--p x", "x"), Some(0x7f00));
    assert_eq!(base_in_line("zz-7f00 libUE4.so", "libUE4.so"), None);
    assert_eq!(base_in_line("   ", ""), None);
    assert_eq!(base_in_line("abc", "abc"), Some(0xabc));
}

#[test]
fn module_base_takes_first_readable_line() {
    let lines: Vec<String> = vec![
        "5555000-5556000 r--p 0 0:0 0 /system/bin/app_process64".to_string(),
        "nothex-1 r--p 0 0:0 0 /lib/libUnreal.so".to_string(),
        "70a0000000-70a1000000 r--p 0 0:0 0 /lib/libUnreal.so".to_string(),
        "70b0000000-70b1000000 r-xp 0 0:0 0 /lib/libUnreal.so".to_string(),
    ];
    assert_eq!(module_base_in_maps(&lines, "libUnreal.so"), 0x70a0000000);
    assert_eq!(module_base_in_maps(&lines, "libEOSSDK.so"), 0);
    assert_eq!(module_base_in_maps(&Vec::new(), "libUnreal.so"), 0);
}
