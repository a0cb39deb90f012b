use quicklabel::paths::{caption_path_of, file_name_of, find_last, is_image, join};
use quicklabel::session::{Class, SharedState};
use quicklabel::text::{appended, decimal_string, parse_usize};
use quicklabel::views::setup::opt_buf_to_string;

#[test]
fn decimal_string_writes_numerals() {
    assert_eq!(decimal_string(0), "0");
    assert_eq!(decimal_string(5), "5");
    assert_eq!(decimal_string(10), "10");
    assert_eq!(decimal_string(1234567890), "1234567890");
    assert_eq!(decimal_string(usize::MAX), usize::MAX.to_string());
}

#[test]
fn parse_usize_reads_what_std_reads() {
    let max = usize::MAX.to_string();
    let over = format!("{}0", max);
    let plus_max = format!("+{}", max);
    let cases = [
        "", "+", "0", "7", "007", "+12", "-3", "1a", " 1", "1 ", "++1", "12345", "٣",
        max.as_str(), over.as_str(), plus_max.as_str(), "99999999999999999999999999",
    ];
    for case in cases {
        assert_eq!(parse_usize(case), usize::from_str_radix(case, 10).ok(), "{case:?}");
    }
    assert_eq!(parse_usize("+12"), Some(12));
    assert_eq!(parse_usize(""), None);
    assert_eq!(parse_usize("18446744073709551616"), None);
}

#[test]
fn appended_puts_one_text_behind_another() {
    assert_eq!(appended("ab", "cd"), "abcd");
    assert_eq!(appended("", ""), "");
}

#[test]
fn find_last_gives_the_last_position() {
    assert_eq!(find_last("a/b/c", '/'), Some(3));
    assert_eq!(find_last("abc", '/'), None);
    assert_eq!(find_last("", '/'), None);
    assert_eq!(find_last("é.x.y", '.'), Some(3));
}

#[test]
fn file_name_is_the_last_component() {
    assert_eq!(file_name_of("/in/x.jpg"), "x.jpg");
    assert_eq!(file_name_of("x.jpg"), "x.jpg");
    assert_eq!(file_name_of("/in/sub/"), "");
    assert_eq!(file_name_of(""), "");
    assert_eq!(file_name_of("/in/ünï.PNG"), "ünï.PNG");
}

#[test]
fn image_extensions_are_matched_without_case() {
    for name in ["a.jpg", "a.JPG", "a.Jpeg", "a.jpeg", "c.PNG", "d.webp", "d.WeBp", "/x.y/z.png", "a.b.jpg"] {
        assert!(is_image(name), "{name}");
    }
    for name in [
        "b.txt", "e", "", ".jpg", "/in/.png", "a.jpg.txt", "a.jpgx", "a.jp", "jpg", "a.", "a.gif",
        "dir.jpg/file", "a.jpe", "a.webpp", "a.\u{212A}pg",
    ] {
        assert!(!is_image(name), "{name}");
    }
}

#[test]
fn join_puts_one_separator() {
    assert_eq!(join("/ds", "5_cat"), "/ds/5_cat");
    assert_eq!(join("/ds/", "5_cat"), "/ds/5_cat");
    assert_eq!(join("", "5_cat"), "5_cat");
    assert_eq!(join("/ds", ""), "/ds/");
    assert_eq!(join("/ds", "/abs"), "/abs");
    assert_eq!(join("rel", "x.jpg"), "rel/x.jpg");
}

#[test]
fn caption_path_swaps_the_extension() {
    assert_eq!(caption_path_of("/ds/5_cat/x.jpg"), "/ds/5_cat/x.txt");
    assert_eq!(caption_path_of("/ds/5_cat/x.tar.PNG"), "/ds/5_cat/x.tar.txt");
    assert_eq!(caption_path_of("/ds/5_cat/x"), "/ds/5_cat/x.txt");
    assert_eq!(caption_path_of("/ds/5.cat/x"), "/ds/5.cat/x.txt");
    assert_eq!(caption_path_of("/ds/.hidden"), "/ds/.hidden.txt");
    assert_eq!(caption_path_of("x."), "x.txt");
}

#[test]
fn class_path_is_count_underscore_label() {
    let cat = Class { label: "cat".to_string(), repeats: 5 };
    assert_eq!(cat.path("/ds".to_string()), "/ds/5_cat");
    assert_eq!(cat.path("/ds/".to_string()), "/ds/5_cat");
    let odd = Class { label: "a b/c_d".to_string(), repeats: 120 };
    assert_eq!(odd.path("out".to_string()), "out/120_a b/c_d");
}

#[test]
fn class_dirs_follow_the_classes() {
    let shared = SharedState {
        input_dir: "/in".to_string(),
        output_dir: "/ds".to_string(),
        trash_dir: None,
        classes: vec![
            Class { label: "cat".to_string(), repeats: 5 },
            Class { label: "dog".to_string(), repeats: 12 },
            Class { label: "cat".to_string(), repeats: 5 },
        ],
        prompt_prefill: Some("photo of ".to_string()),
    };
    assert_eq!(shared.class_dirs(), vec!["/ds/5_cat", "/ds/12_dog", "/ds/5_cat"]);
    assert!(shared.can_label());
    assert_eq!(shared.caption_seed(), "photo of ");
}

#[test]
fn opt_buf_to_string_shows_the_path_or_nothing() {
    assert_eq!(opt_buf_to_string(Some("/in".to_string())), "/in");
    assert_eq!(opt_buf_to_string(None), "");
}
