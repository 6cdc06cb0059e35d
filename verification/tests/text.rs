use ultradian_work::text::{is_blank, is_whitespace, join_with_space, str_eq, to_owned_string, trim_str};

#[test]
fn trimming_twice_is_trimming_once() {
    for s in ["  a b  ", "\t\nx\r\n", "", "   ", "plain", " ñandú "] {
        let once = trim_str(s);
        assert_eq!(once, s.trim());
        assert_eq!(trim_str(once), once);
    }
}

#[test]
fn blank_texts_and_whitespace() {
    assert!(is_blank(""));
    assert!(is_blank(" \t\n"));
    assert!(!is_blank(" a "));
    assert!(is_whitespace(' '));
    assert!(is_whitespace('\u{3000}'));
    assert!(!is_whitespace('x'));
}

#[test]
fn joining_and_comparing_texts() {
    assert_eq!(join_with_space("Tarea:", "Leer"), "Tarea: Leer");
    assert_eq!(to_owned_string("abc"), "abc".to_string());
    assert!(str_eq("abc", "abc"));
    assert!(!str_eq("abc", "abd"));
    assert!(!str_eq("abc", "ab"));
}
