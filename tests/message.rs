use yewxel::text::{is_white_space, same_text, trim_text};
use yewxel::xmessage::{
    message_text, parse_args, parse_href, remove_backslashes, with_ellipsis, XMessageEvent,
};

fn args(s: &str) -> Vec<(String, Option<String>)> {
    parse_args(s).into_iter().map(|a| (a.key, a.value)).collect()
}

fn arg(k: &str, v: Option<&str>) -> (String, Option<String>) {
    (k.to_string(), v.map(|v| v.to_string()))
}

#[test]
fn href_with_hash_names_message() {
    assert_eq!(parse_href(String::from("#confirm")), (String::from("confirm"), None));
    assert_eq!(parse_href(String::from("hello-world")), (String::from("hello-world"), None));
    assert_eq!(parse_href(String::new()), (String::new(), None));
}

#[test]
fn href_with_dot_names_attribute() {
    assert_eq!(parse_href(String::from("#confirm.yes")), (String::from("confirm"), Some(String::from("yes"))));
    assert_eq!(parse_href(String::from("#a.b")), (String::from("a"), Some(String::from("b"))));
    assert_eq!(parse_href(String::from("a.b.c")), (String::from("a"), Some(String::from("b"))));
    assert_eq!(parse_href(String::from("a.")), (String::from("a"), Some(String::new())));
}

#[test]
fn blank_argument_list_has_no_arguments() {
    assert!(parse_args("").is_empty());
    assert!(parse_args(" \t\n").is_empty());
}

#[test]
fn single_argument() {
    assert_eq!(args("name:My Document.docx"), vec![arg("name", Some("My Document.docx"))]);
    assert_eq!(args("flag"), vec![arg("flag", None)]);
    assert_eq!(args("time:1:2"), vec![arg("time", Some("1:2"))]);
}

#[test]
fn arguments_split_at_unescaped_commas() {
    assert_eq!(args("name:doc,created:1h"), vec![arg("name", Some("doc")), arg("created", Some("1h"))]);
    assert_eq!(args("a:1,b:2"), vec![arg("a", Some("1")), arg("b", Some("2"))]);
    assert_eq!(args(",a:1"), vec![arg("", None), arg("a", Some("1"))]);
}

#[test]
fn escaped_comma_stays_in_value() {
    assert_eq!(args("k:a\\,b"), vec![arg("k", Some("a,b"))]);
    assert_eq!(args("id:x\\, y,n:4"), vec![arg("id", Some("x, y")), arg("n", Some("4"))]);
    assert_eq!(
        args("id-one:Id one text,id-two: Id\\, two,id-three:4"),
        vec![arg("id-one", Some("Id one text")), arg("id-two", Some(" Id, two")), arg("id-three", Some("4"))]
    );
}

#[test]
fn backslashes_are_dropped() {
    assert_eq!(remove_backslashes("a\\b\\\\c"), "abc");
    assert_eq!(remove_backslashes(""), "");
}

#[test]
fn ellipsis_is_appended() {
    assert_eq!(with_ellipsis(String::from("Hi"), true), "Hi...");
    assert_eq!(with_ellipsis(String::from("Hi"), false), "Hi");
    assert_eq!(message_text(&None, false, true), "...");
    assert_eq!(message_text(&Some(String::from("plain text")), false, false), "plain text");
}

#[test]
fn autocapitalize_title_cases() {
    assert_eq!(message_text(&Some(String::from("hello world")), true, false), "Hello World");
    assert_eq!(message_text(&Some(String::from("a tale of two cities")), true, true), "A Tale of Two Cities...");
}

#[test]
fn message_event_accessors() {
    let e = XMessageEvent::new(Some(String::from("en-US")), None);
    assert_eq!(e.locale(), Some(String::from("en-US")));
    assert_eq!(e.text(), None);
    let f = XMessageEvent::new(None, Some(String::from("Yes")));
    assert_eq!(f.locale(), None);
    assert_eq!(f.text(), Some(String::from("Yes")));
}

#[test]
fn trimming_and_white_space() {
    assert_eq!(trim_text("  a b \n"), "a b");
    assert_eq!(trim_text("\u{3000}x\u{a0}"), "x");
    assert_eq!(trim_text("   "), "");
    assert!(is_white_space('\u{2009}'));
    assert!(!is_white_space('x'));
    assert!(!is_white_space('\u{200b}'));
    for c in ['\t', '\n', ' ', '\u{85}', '\u{1680}', '\u{2028}', '\u{205f}', 'a', '\u{180e}', '\u{feff}'] {
        assert_eq!(is_white_space(c), c.is_whitespace());
    }
    assert!(same_text("abc", "abc"));
    assert!(!same_text("abc", "abd"));
    assert!(!same_text("abc", "ab"));
}
