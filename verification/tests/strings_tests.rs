use suggestline::strings::{chars_of_str, lines_of, string_of_chars};

#[test]
fn chars_and_string_round_trip() {
    let v = chars_of_str("héllo");
    assert_eq!(v, vec!['h', 'é', 'l', 'l', 'o']);
    assert_eq!(string_of_chars(&v), "héllo");
    assert_eq!(chars_of_str("").len(), 0);
}

#[test]
fn lines_split_on_newlines() {
    assert_eq!(lines_of("a\nb\n"), vec!["a".to_string(), "b".to_string()]);
    assert_eq!(lines_of("a\nb"), vec!["a".to_string(), "b".to_string()]);
    assert_eq!(
        lines_of("a\n\nb"),
        vec!["a".to_string(), "".to_string(), "b".to_string()]
    );
    assert_eq!(lines_of(""), Vec::<String>::new());
    assert_eq!(lines_of("\n"), vec!["".to_string()]);
    assert_eq!(lines_of("one"), vec!["one".to_string()]);
}
