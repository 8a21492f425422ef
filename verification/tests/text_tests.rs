use kickit::text::{
    split_str, split_words, split_lines, join_strs, trim_end_char, split_once, starts_with, str_eq,
    contains_str, split_records, join_path, u32_to_le, u32_from_le_bytes, i32_to_le, i32_from_le_bytes,
    u64_to_decimal, i64_to_decimal, Sep,
};
use kickit::{delim_iter, DumpVec, OptionEmptyVec, TrashUnused, VERSION, PREFIX};
use std::collections::VecDeque;

fn s(v: &[&str]) -> Vec<String> {
    v.iter().map(|x| x.to_string()).collect()
}

#[test]
fn split_on_a_char_keeps_empty_pieces() {
    assert_eq!(split_str("a  b", Sep::Char(' ')), s(&["a", "", "b"]));
    assert_eq!(split_str("", Sep::Char(' ')), s(&[""]));
    assert_eq!(split_str("key=value=x", Sep::Char('=')), s(&["key", "value", "x"]));
}

#[test]
fn split_words_drops_runs_of_whitespace() {
    assert_eq!(split_words("  UUID=abc  /  ext4\tdefaults 0 1 "), s(&["UUID=abc", "/", "ext4", "defaults", "0", "1"]));
    assert_eq!(split_words("   "), Vec::<String>::new());
}

#[test]
fn split_lines_drops_carriage_returns_and_last_feed() {
    assert_eq!(split_lines("a\r\nb\nc\n"), s(&["a", "b", "c"]));
    assert_eq!(split_lines(""), Vec::<String>::new());
}

#[test]
fn join_puts_the_delimiter_between() {
    assert_eq!(join_strs(&s(&["a", "b", "c"]), ","), "a,b,c");
    assert_eq!(join_strs(&s(&["only"]), ","), "only");
    assert_eq!(join_strs(&[], ","), "");
}

#[test]
fn trim_and_split_once() {
    assert_eq!(trim_end_char("value\n\n", '\n'), "value");
    assert_eq!(split_once("init.target=system", '='), Some(("init.target".to_string(), "system".to_string())));
    assert_eq!(split_once("quiet", '='), None);
    assert!(starts_with("/run/kickit/x", "/run/kickit/"));
    assert!(!starts_with("/run", "/run/kickit/"));
    assert!(str_eq("abc", "abc"));
    assert!(!str_eq("abc", "abd"));
    assert!(contains_str(&s(&["a", "b"]), "b"));
    assert!(!contains_str(&s(&["a", "b"]), "c"));
}

#[test]
fn records_are_cut_at_the_delimiter() {
    assert_eq!(split_records(b"ab\n\ncd\n", b'\n'), vec![b"ab".to_vec(), b"".to_vec(), b"cd".to_vec()]);
    assert_eq!(split_records(b"ab\ncd", b'\n'), vec![b"ab".to_vec(), b"cd".to_vec()]);
    assert_eq!(split_records(b"", b'\n'), Vec::<Vec<u8>>::new());
}

#[test]
fn paths_join_like_pathbuf() {
    assert_eq!(join_path("/usr/lib/kickit", "warden"), "/usr/lib/kickit/warden");
    assert_eq!(join_path("/usr/", "lib"), "/usr/lib");
    assert_eq!(join_path("/usr", "/etc"), "/etc");
    assert_eq!(join_path("", "etc"), "etc");
    assert_eq!(join_path(PREFIX, "service"), "/usr/lib/kickit/service");
}

#[test]
fn little_endian_round_trips() {
    assert_eq!(u32_to_le(0x12345678), vec![0x78, 0x56, 0x34, 0x12]);
    assert_eq!(u32_from_le_bytes(0x78, 0x56, 0x34, 0x12), 0x12345678);
    assert_eq!(i32_to_le(-2), vec![0xfe, 0xff, 0xff, 0xff]);
    assert_eq!(i32_from_le_bytes(0xfe, 0xff, 0xff, 0xff), -2);
    for x in [0u32, 1, 255, 256, u32::MAX] {
        let b = u32_to_le(x);
        assert_eq!(u32_from_le_bytes(b[0], b[1], b[2], b[3]), x);
    }
}

#[test]
fn decimal_texts() {
    assert_eq!(u64_to_decimal(0), "0");
    assert_eq!(u64_to_decimal(1234567890123), "1234567890123");
    assert_eq!(u64_to_decimal(u64::MAX), "18446744073709551615");
    assert_eq!(i64_to_decimal(-42), "-42");
    assert_eq!(i64_to_decimal(i64::MIN), "-9223372036854775808");
}

#[test]
fn delimited_iterator_appends_the_delimiter_to_all_but_the_last() {
    let mut it = delim_iter(s(&["a", "b", "c"]), ", ");
    assert_eq!(it.next(), Some("a, ".to_string()));
    assert_eq!(it.next(), Some("b, ".to_string()));
    assert_eq!(it.next(), Some("c".to_string()));
    assert_eq!(it.next(), None);
    assert_eq!(it.next(), None);
}

#[test]
fn delimited_iterator_pieces_join_the_items() {
    let items = s(&["x", "yy", "zzz"]);
    let mut it = delim_iter(items.clone(), "-");
    let mut joined = String::new();
    while let Some(p) = it.next() {
        joined.push_str(&p);
    }
    assert_eq!(joined, items.join("-"));
}

#[test]
fn dump_front_takes_from_the_front() {
    let mut abcdef: VecDeque<char> = VecDeque::from(vec!['a', 'b', 'c', 'd', 'e', 'f']);
    let abc = abcdef.dump_front(3);
    assert_eq!(abc, vec!['a', 'b', 'c']);
    assert_eq!(abcdef.iter().copied().collect::<Vec<char>>(), vec!['d', 'e', 'f']);
}

#[test]
fn empty_vectors_become_none() {
    assert_eq!(Vec::<u8>::new().empty_none(), None);
    assert_eq!(vec![1u8].empty_none(), Some(vec![1u8]));
    5u8.trash();
}

#[test]
fn version_is_marked_unstable() {
    assert!(VERSION.ends_with(" (unstable)"));
}
