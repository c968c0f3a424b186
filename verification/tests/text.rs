use roseline_launcher::text::{chars_of, find_fragment, matches_at, render_decimal, str_contains};

fn chars(s: &str) -> Vec<char> {
    s.chars().collect()
}

#[test]
fn chars_of_gives_every_character_in_order() {
    assert_eq!(chars_of(""), Vec::<char>::new());
    assert_eq!(chars_of("abc"), vec!['a', 'b', 'c']);
    assert_eq!(chars_of("née ü"), vec!['n', 'é', 'e', ' ', 'ü']);
}

#[test]
fn matches_at_compares_at_the_given_offset() {
    let hay = chars("roseline-web");
    assert!(matches_at(&hay, &chars("roseline"), 0));
    assert!(matches_at(&hay, &chars("web"), 9));
    assert!(!matches_at(&hay, &chars("web"), 8));
    assert!(matches_at(&hay, &chars(""), 12));
    assert!(matches_at(&hay, &chars(""), 0));
}

#[test]
fn matches_at_beyond_the_end_is_no_match() {
    let hay = chars("roseline-web");
    assert!(!matches_at(&hay, &chars("web"), 10));
    assert!(!matches_at(&hay, &chars("web"), 12));
    assert!(!matches_at(&hay, &chars("web"), usize::MAX));
    assert!(!matches_at(&hay, &chars(""), 13));
    assert!(!matches_at(&hay, &chars("roseline-web-and-more"), 0));
}

#[test]
fn find_fragment_returns_the_first_offset() {
    assert_eq!(find_fragment(&chars("abcabc"), &chars("bc")), Some(1));
    assert_eq!(find_fragment(&chars("abcabc"), &chars("abc")), Some(0));
    assert_eq!(find_fragment(&chars("abcabc"), &chars("cab")), Some(2));
    assert_eq!(find_fragment(&chars("abcabc"), &chars("abcabc")), Some(0));
    assert_eq!(find_fragment(&chars("abcabc"), &chars("abcabcd")), None);
    assert_eq!(find_fragment(&chars("abcabc"), &chars("ca ")), None);
    assert_eq!(find_fragment(&chars("abc"), &chars("")), Some(0));
    assert_eq!(find_fragment(&chars(""), &chars("")), Some(0));
    assert_eq!(find_fragment(&chars(""), &chars("a")), None);
    assert_eq!(find_fragment(&chars("aab"), &chars("ab")), Some(1));
}

#[test]
fn str_contains_agrees_with_std() {
    let hays = ["", "r", "roseline", "xroselinex", "roselin", "rosroseline", "ROSELINE", "röseline"];
    let needles = ["", "roseline", "rose", "line", "e", "x", "ö"];
    for hay in hays {
        for needle in needles {
            assert_eq!(str_contains(hay, needle), hay.contains(needle), "{:?} in {:?}", needle, hay);
        }
    }
}

#[test]
fn render_decimal_writes_base_ten() {
    assert_eq!(render_decimal(0), "0");
    assert_eq!(render_decimal(7), "7");
    assert_eq!(render_decimal(9), "9");
    assert_eq!(render_decimal(10), "10");
    assert_eq!(render_decimal(101), "101");
    assert_eq!(render_decimal(12345), "12345");
    assert_eq!(render_decimal(1234567890), "1234567890");
    assert_eq!(render_decimal(u64::MAX), "18446744073709551615");
}
