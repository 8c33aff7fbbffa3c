use harbormaster::decimal::{parse_u32, parse_u64};
use harbormaster::page::page_of;
use harbormaster::pathwalk::walk;
use harbormaster::text::{after_last, lines, split, split_once, split_whitespace, trim};

#[test]
fn unsigned_parsing_matches_str_parse() {
    assert_eq!(parse_u64("42"), Some(42));
    assert_eq!(parse_u64("+42"), Some(42));
    assert_eq!(parse_u64("0000000000000000000000042"), Some(42));
    assert_eq!(parse_u64("18446744073709551615"), Some(u64::MAX));
    assert_eq!(parse_u64("18446744073709551616"), None);
    assert_eq!(parse_u64(""), None);
    assert_eq!(parse_u64("+"), None);
    assert_eq!(parse_u64("-1"), None);
    assert_eq!(parse_u64("1 "), None);
    assert_eq!(parse_u32("4294967295"), Some(u32::MAX));
    assert_eq!(parse_u32("4294967296"), None);
    for text in ["7", "+7", "007", "x", "", "99999999999999999999999"] {
        assert_eq!(parse_u64(text), text.parse::<u64>().ok());
    }
}

#[test]
fn splitting_matches_std() {
    for text in ["", "a", "a:b", ":a::b:", "::"] {
        let expected: Vec<String> = text.split(':').map(str::to_string).collect();
        assert_eq!(split(text, ':'), expected);
    }
    for text in ["", "a", "a\n", "a\r\nb", "a\n\nb\r", "\n", "x\ry\n"] {
        let expected: Vec<String> = text.lines().map(str::to_string).collect();
        assert_eq!(lines(text), expected);
    }
    for text in ["", "  a  b\tc\n", "a", " \u{3000}x\u{85}y "] {
        let expected: Vec<String> = text.split_whitespace().map(str::to_string).collect();
        assert_eq!(split_whitespace(text), expected);
        assert_eq!(trim(text), text.trim());
    }
    assert_eq!(split_once("k=v=w", '='), Some(("k".to_string(), "v=w".to_string())));
    assert_eq!(split_once("kv", '='), None);
    assert_eq!(after_last("a)b)c", ')'), Some("c".to_string()));
    assert_eq!(after_last("abc", ')'), None);
}

#[test]
fn pages_cut_after_the_page_size() {
    let keys: Vec<String> = (0..12).map(|i| format!("k{i:02}")).collect();
    let page = page_of(9, (0..12).collect::<Vec<u32>>(), &keys, 10);
    assert_eq!(page.revision, 9);
    assert_eq!(page.items, (0..10).collect::<Vec<u32>>());
    assert_eq!(page.next_after.as_deref(), Some("k09"));
    let short = page_of(9, vec![1u32, 2], &keys[..2].to_vec(), 10);
    assert_eq!(short.items, vec![1, 2]);
    assert_eq!(short.next_after, None);
}

#[test]
fn root_paths_walk_only_named_directories() {
    assert_eq!(walk("/home//user/./data/"), Some(vec!["home".to_string(), "user".to_string(), "data".to_string()]));
    assert_eq!(walk("/"), Some(vec![]));
    assert_eq!(walk("relative/path"), None);
    assert_eq!(walk("/home/../etc"), None);
    assert_eq!(walk(&format!("/{}", "a".repeat(4096))), None);
}
