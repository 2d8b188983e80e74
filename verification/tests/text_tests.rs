use bubblers::text::{joined, debug_option, render_option};

#[test]
fn concat_joins_in_order() {
    assert_eq!(joined("Result: ", "None"), "Result: None");
    assert_eq!(joined("", "x"), "x");
    assert_eq!(joined("x", ""), "x");
    assert_eq!(joined("", ""), "");
}

#[test]
fn render_option_wraps_what_it_is_given() {
    assert_eq!(render_option(None), "None");
    assert_eq!(render_option(Some("\"a\"")), "Some(\"a\")");
    assert_eq!(render_option(Some("")), "Some()");
}

#[test]
fn debug_option_agrees_with_debug_formatting() {
    let none: Option<String> = None;
    assert_eq!(debug_option(&none), "None");
    assert_eq!(debug_option(&Some("hello".to_string())), "Some(\"hello\")");
    for text in ["", "plain", "with \"quotes\"", "tab\there", "line\nbreak", "back\\slash", "é ü"] {
        let value = Some(text.to_string());
        assert_eq!(debug_option(&value), format!("{:?}", value));
    }
}
