use theme_picker::text::{
    char_is_whitespace, find_char_in, find_sub_in, occurs_at, remove_all_in, replace_first_in,
    slice, split_lines, split_on, starts_with, strip_whitespace, to_chars, to_string, trim_bounds,
};

fn chars(s: &str) -> Vec<char> {
    s.chars().collect()
}

fn text(v: &[char]) -> String {
    v.iter().collect()
}

fn texts(v: &[Vec<char>]) -> Vec<String> {
    v.iter().map(|l| text(l)).collect()
}

#[test]
fn whitespace_is_what_the_standard_library_calls_whitespace() {
    for u in 0..=0x10FFFFu32 {
        if let Some(c) = char::from_u32(u) {
            assert_eq!(char_is_whitespace(c), c.is_whitespace(), "U+{:04X}", u);
        }
    }
}

#[test]
fn to_chars_and_to_string_are_inverse() {
    let v = to_chars("héllo, wörld");
    assert_eq!(v, chars("héllo, wörld"));
    assert_eq!(to_string(&v, 0, v.len()), "héllo, wörld");
    assert_eq!(to_string(&v, 1, 5), "éllo");
    assert_eq!(to_string(&v, 3, 3), "");
}

#[test]
fn trim_bounds_agree_with_trim() {
    for s in ["", " ", "a", "  a b  ", "\t\r\n x \u{3000}", "\u{a0}", "no-space", " \u{2028}y"] {
        let v = chars(s);
        let (a, b) = trim_bounds(&v, 0, v.len());
        assert_eq!(text(&v[a..b]), s.trim(), "{:?}", s);
    }
}

#[test]
fn trim_bounds_stay_inside_the_range() {
    let v = chars("ab  cd  ef");
    assert_eq!(trim_bounds(&v, 2, 8), (4, 6));
    assert_eq!(trim_bounds(&v, 2, 4), (4, 4));
}

#[test]
fn strip_whitespace_removes_inner_whitespace_too() {
    let v = chars(" 1px  solid\t red ");
    assert_eq!(text(&strip_whitespace(&v, 0, v.len())), "1pxsolidred");
    assert_eq!(text(&strip_whitespace(&v, 1, 4)), "1px");
}

#[test]
fn find_char_in_gives_the_first_index_or_the_end() {
    let v = chars("a:b:c");
    assert_eq!(find_char_in(&v, ':', 0, v.len()), 1);
    assert_eq!(find_char_in(&v, ':', 2, v.len()), 3);
    assert_eq!(find_char_in(&v, ':', 4, v.len()), 5);
    assert_eq!(find_char_in(&v, ';', 0, v.len()), 5);
    assert_eq!(find_char_in(&v, ':', 0, 1), 1);
}

#[test]
fn occurs_at_and_starts_with() {
    let v = chars("  @use \"x\";");
    assert!(occurs_at(&v, &chars("@use"), 2));
    assert!(!occurs_at(&v, &chars("@use"), 0));
    assert!(!occurs_at(&v, &chars("x\";!"), 8));
    assert!(occurs_at(&v, &chars(""), v.len()));
    assert!(starts_with(&v, 2, v.len(), &chars("@use")));
    assert!(!starts_with(&v, 0, v.len(), &chars("@use")));
    assert!(!starts_with(&v, 2, 5, &chars("@use")));
}

#[test]
fn find_sub_in_gives_the_first_occurrence() {
    let v = chars("abcabc");
    assert_eq!(find_sub_in(&v, &chars("bc"), 0), Some(1));
    assert_eq!(find_sub_in(&v, &chars("bc"), 2), Some(4));
    assert_eq!(find_sub_in(&v, &chars("bc"), 5), None);
    assert_eq!(find_sub_in(&v, &chars("x"), 0), None);
    assert_eq!(find_sub_in(&v, &chars(""), 3), Some(3));
}

#[test]
fn replace_first_in_replaces_one_occurrence() {
    for (s, pat, with) in [
        ("a __x__ b __x__", "__x__", "FF"),
        ("nothing here", "__x__", "FF"),
        ("abc", "", "-"),
        ("aaa", "aa", "b"),
        ("", "a", "b"),
    ] {
        let got = replace_first_in(&chars(s), &chars(pat), &chars(with));
        assert_eq!(text(&got), s.replacen(pat, with, 1), "{:?} {:?}", s, pat);
    }
}

#[test]
fn remove_all_in_agrees_with_replace() {
    for (s, pat) in [
        ("rgba(1, 2, 3, 1)", "rgba("),
        ("rgba(1, 2, 3, 1)", ")"),
        ("rgrgba(ba(", "rgba("),
        ("aaaa", "aa"),
        ("aaa", "aa"),
        ("abc", ""),
        ("", "x"),
    ] {
        let got = remove_all_in(&chars(s), &chars(pat));
        if pat.is_empty() {
            assert_eq!(text(&got), s);
        } else {
            assert_eq!(text(&got), s.replace(pat, ""), "{:?} {:?}", s, pat);
        }
    }
}

#[test]
fn split_on_agrees_with_split() {
    for s in ["", ",", "a", "a,b", "a,,b", ",a,", "1, 2, 3, 1"] {
        let expected: Vec<String> = s.split(',').map(|p| p.to_string()).collect();
        assert_eq!(texts(&split_on(&chars(s), ',')), expected, "{:?}", s);
    }
}

#[test]
fn split_lines_agrees_with_lines() {
    for s in [
        "",
        "\n",
        "a",
        "a\n",
        "a\nb",
        "a\n\nb\n",
        "a\r\nb\r\n",
        "a\rb",
        "a\r",
        "\r\n",
        "a\r\r\nb",
        "\n\n",
    ] {
        let expected: Vec<String> = s.lines().map(|p| p.to_string()).collect();
        assert_eq!(texts(&split_lines(&chars(s))), expected, "{:?}", s);
    }
}

#[test]
fn slice_copies_a_range() {
    let v = chars("abcdef");
    assert_eq!(text(&slice(&v, 2, 4)), "cd");
    assert_eq!(text(&slice(&v, 0, 6)), "abcdef");
    assert_eq!(text(&slice(&v, 6, 6)), "");
}
