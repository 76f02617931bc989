use sk_music::table::Table;
use sk_music::text::{
    after_last, before, chars_of, contains, decimal_string, is_white_space, parse_u64, same,
    split_once, strip_prefix, trim, trim_leading,
};

#[test]
fn white_space_as_in_unicode() {
    let mut n: u32 = 0;
    while n <= 0x10FFFF {
        if let Some(c) = char::from_u32(n) {
            assert_eq!(is_white_space(c), c.is_whitespace(), "{:x}", n);
        }
        n += 1;
    }
}

#[test]
fn trims_both_ends() {
    for s in ["", " ", "a", " a b\t\n", "\u{3000}x\u{a0}", "\u{200b}x", "\u{85}"] {
        assert_eq!(trim(s), s.trim());
        assert_eq!(trim(trim(s)), trim(s));
    }
}

#[test]
fn numbers_as_std_reads_them() {
    for s in [
        "0", "7", "+7", "-7", "", "+", "++1", " 1", "1 ", "18446744073709551615",
        "18446744073709551616", "0018446744073709551615", "99999999999999999999999999", "1_0", "٣",
    ] {
        assert_eq!(parse_u64(s), s.parse::<u64>().ok(), "{}", s);
    }
}

#[test]
fn decimals_are_read_back() {
    for n in [0u64, 9, 10, 1048575, u64::MAX] {
        let s = decimal_string(n as u128);
        assert_eq!(s, n.to_string());
        assert_eq!(parse_u64(&s), Some(n));
    }
    assert_eq!(decimal_string(u128::MAX), u128::MAX.to_string());
}

#[test]
fn parts_of_texts() {
    assert!(same("aé", "aé"));
    assert!(!same("a", "ab"));
    assert_eq!(chars_of("aé♪"), vec!['a', 'é', '♪']);
    assert!(contains("xaudio/mp4;", "audio/mp4"));
    assert!(contains("", ""));
    assert!(!contains("audio/mp", "audio/mp4"));
    assert_eq!(strip_prefix("bytes=1", "bytes="), Some("1"));
    assert_eq!(strip_prefix("byte=1", "bytes="), None);
    assert_eq!(strip_prefix("é1", "é"), Some("1"));
    assert_eq!(split_once("a-b-c", '-'), Some(("a", "b-c")));
    assert_eq!(split_once("abc", '-'), None);
    assert_eq!(before("id.m4a.part", '.'), "id");
    assert_eq!(before("id", '.'), "id");
    assert_eq!(after_last("bytes 0-1/2/3", '/'), "3");
    assert_eq!(after_last("none", '/'), "none");
    assert_eq!(trim_leading("//é/", '/'), "é/");
}

#[test]
fn table_of_texts() {
    let mut t: Table<u8> = Table::new();
    assert!(!t.contains_key("a"));
    t.insert("a".to_string(), 1);
    t.insert("b".to_string(), 2);
    t.insert("a".to_string(), 3);
    assert_eq!(t.get("a"), Some(&3));
    assert_eq!(t.get("c"), None);
    assert_eq!(t.remove("a"), Some(3));
    assert_eq!(t.remove("a"), None);
    assert_eq!(t.rows(), &vec![("b".to_string(), 2)]);
}
