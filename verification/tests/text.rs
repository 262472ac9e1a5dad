use puzzle::text::{parse_usize, same_text, split_once_ascii, starts_with};

#[test]
fn parse_usize_reads_decimal_numbers() {
    assert_eq!(parse_usize("0"), Some(0));
    assert_eq!(parse_usize("12"), Some(12));
    assert_eq!(parse_usize("+7"), Some(7));
    assert_eq!(parse_usize("007"), Some(7));
    assert_eq!(parse_usize(&usize::MAX.to_string()), Some(usize::MAX));
}

#[test]
fn parse_usize_refuses_what_from_str_refuses() {
    for s in ["", "+", "-", "-1", "-0", " 1", "1 ", "1a", "++1", "٣"] {
        assert_eq!(parse_usize(s), s.parse::<usize>().ok(), "{s:?}");
        assert_eq!(parse_usize(s), None, "{s:?}");
    }
    assert_eq!(parse_usize("99999999999999999999999"), None);
}

#[test]
fn parse_usize_agrees_with_from_str() {
    for s in ["3", "+3", "42", "18446744073709551615", "18446744073709551616", "4294967296"] {
        assert_eq!(parse_usize(s), s.parse::<usize>().ok(), "{s:?}");
    }
}

#[test]
fn same_text_and_starts_with() {
    assert!(same_text("z-main", "z-main"));
    assert!(!same_text("z-main", "z-mai"));
    assert!(starts_with("i-ring3", "i-ring"));
    assert!(starts_with("i-ring", "i-ring"));
    assert!(!starts_with("i-rin", "i-ring"));
    assert!(!starts_with("x-ring3", "i-ring"));
}

#[test]
fn split_once_at_first_separator() {
    assert_eq!(
        split_once_ascii("models/key.glb#Scene0", b'#'),
        Some(("models/key.glb".to_string(), "Scene0".to_string()))
    );
    assert_eq!(split_once_ascii("a#b#c", b'#'), Some(("a".to_string(), "b#c".to_string())));
    assert_eq!(split_once_ascii("#x", b'#'), Some(("".to_string(), "x".to_string())));
    assert_eq!(split_once_ascii("x#", b'#'), Some(("x".to_string(), "".to_string())));
    assert_eq!(split_once_ascii("ünï#cødé", b'#'), Some(("ünï".to_string(), "cødé".to_string())));
    assert_eq!(split_once_ascii("no separator", b'#'), None);
    assert_eq!(split_once_ascii("", b'#'), None);
}
