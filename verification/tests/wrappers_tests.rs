use bubblers::wrappers::{
    file_name, input_form, item_list, loader, menu_list, stopwatch, table, text_area, timer,
    viewport, Item, Session, Widget,
};

fn framed(session: &Session) -> bool {
    session.x == 5
        && session.y == 5
        && session.raw_mode
        && session.clear_before
        && !session.clear_after
}

fn listed(session: &Session) -> bool {
    session.x == 5
        && session.y == 5
        && session.raw_mode
        && !session.clear_before
        && session.clear_after
}

fn some(text: &str) -> Option<String> {
    Some(text.to_string())
}

#[test]
fn input_form_describes_a_text_input() {
    let session = input_form("Your name", "Ann", "Name");
    assert!(framed(&session));
    match session.widget {
        Widget::TextInput { placeholder, padding, initial_text, label, helper_text, prefix } => {
            assert_eq!(placeholder, some("Your name"));
            assert_eq!(padding, 2);
            assert_eq!(initial_text, "Ann");
            assert_eq!(label, "Name");
            assert_eq!(helper_text, some("Ctrl+C to exit"));
            assert_eq!(prefix, ">");
        }
        _ => panic!("not a text input"),
    }
}

#[test]
fn text_area_describes_a_text_area() {
    let session = text_area("Notes", 6);
    assert!(framed(&session));
    match session.widget {
        Widget::TextArea { label, helper_text, visible_lines } => {
            assert_eq!(label, "Notes");
            assert_eq!(helper_text, some("Press ESC to exit."));
            assert_eq!(visible_lines, 6);
        }
        _ => panic!("not a text area"),
    }
}

#[test]
fn loader_describes_a_cyan_spinner() {
    let session = loader("Working".to_string(), "dots".to_string());
    assert_eq!((session.x, session.y), (10, 10));
    assert!(!session.raw_mode);
    assert!(!session.clear_before);
    assert!(session.clear_after);
    match session.widget {
        Widget::Spinner { red, green, blue, message, style } => {
            assert_eq!((red, green, blue), (0, 255, 255));
            assert_eq!(message, "Working");
            assert_eq!(style, "dots");
        }
        _ => panic!("not a spinner"),
    }
}

#[test]
fn table_copies_headers_and_rows() {
    let session = table(vec!["Name", "Age"], vec![vec!["Ann", "31"], vec![], vec!["Bob"]]);
    assert!(framed(&session));
    match session.widget {
        Widget::Table { headers, rows, selected_row, padding, visible_lines } => {
            assert_eq!(headers, vec!["Name".to_string(), "Age".to_string()]);
            assert_eq!(
                rows,
                vec![vec!["Ann".to_string(), "31".to_string()], vec![], vec!["Bob".to_string()]]
            );
            assert_eq!(selected_row, 0);
            assert_eq!(padding, 3);
            assert_eq!(visible_lines, 5);
        }
        _ => panic!("not a table"),
    }
}

#[test]
fn table_without_anything_is_empty() {
    let session = table(Vec::new(), Vec::new());
    match session.widget {
        Widget::Table { headers, rows, .. } => {
            assert!(headers.is_empty());
            assert!(rows.is_empty());
        }
        _ => panic!("not a table"),
    }
}

#[test]
fn timer_and_stopwatch_describe_clocks() {
    let session = timer(5, 250);
    assert!(framed(&session));
    assert!(matches!(session.widget, Widget::Timer { secs: 5, nanos: 250 }));
    let session = timer(u64::MAX, u32::MAX);
    assert!(matches!(session.widget, Widget::Timer { secs: u64::MAX, nanos: u32::MAX }));
    let session = stopwatch();
    assert!(framed(&session));
    assert!(matches!(session.widget, Widget::StopWatch));
}

#[test]
fn viewport_takes_the_header_from_the_path() {
    let session = viewport("examples/poem.md".to_string());
    assert!(framed(&session));
    match session.widget {
        Widget::Viewport { header, file_path, height, width, padding } => {
            assert_eq!(header, "poem.md");
            assert_eq!(file_path, "examples/poem.md");
            assert_eq!(height, 20);
            assert_eq!(width, 100);
            assert_eq!(padding, 6);
        }
        _ => panic!("not a viewport"),
    }
}

#[test]
fn file_name_is_what_follows_the_last_slash() {
    assert_eq!(file_name("a/b/c.txt"), "c.txt");
    assert_eq!(file_name("plain"), "plain");
    assert_eq!(file_name("dir/"), "");
    assert_eq!(file_name(""), "");
    assert_eq!(file_name("/"), "");
    assert_eq!(file_name("/root"), "root");
    assert_eq!(file_name("//x//y"), "y");
    assert_eq!(file_name("héllo/wörld/ñ.md"), "ñ.md");
    for path in ["a/b/c.txt", "plain", "dir/", "", "/", "x/y/", "é/ü"] {
        assert_eq!(file_name(path), path.split('/').last().unwrap());
    }
}

#[test]
fn item_list_and_menu_list_describe_lists() {
    let session = item_list(
        vec![Item { title: "Pocky".to_string(), subtitle: "Expensive".to_string() }],
        "Groceries".to_string(),
    );
    assert!(listed(&session));
    match session.widget {
        Widget::ItemList { title, items } => {
            assert_eq!(title, "Groceries");
            assert_eq!(items.len(), 1);
            assert_eq!(items[0].title, "Pocky");
            assert_eq!(items[0].subtitle, "Expensive");
        }
        _ => panic!("not an item list"),
    }
    let session = menu_list(
        vec!["Start".to_string(), "Stop".to_string()],
        "Main".to_string(),
        "Pick".to_string(),
    );
    assert!(listed(&session));
    match session.widget {
        Widget::Menu { title, subtitle, items } => {
            assert_eq!(title, "Main");
            assert_eq!(subtitle, "Pick");
            assert_eq!(items, vec!["Start".to_string(), "Stop".to_string()]);
        }
        _ => panic!("not a menu"),
    }
}

#[test]
fn report_is_the_line_a_widget_leaves() {
    let reply = some("hello");
    assert_eq!(text_area("Notes", 3).report(&reply), some("Input value: Some(\"hello\")"));
    assert_eq!(text_area("Notes", 3).report(&None), some("Input value: None"));
    assert_eq!(
        loader("Working".to_string(), "dots".to_string()).report(&None),
        some("Operation completed.")
    );
    assert_eq!(
        loader("Working".to_string(), "dots".to_string()).report(&reply),
        some("Operation completed.")
    );
    assert_eq!(
        item_list(Vec::new(), "T".to_string()).report(&reply),
        some("List: Some(\"hello\")")
    );
    assert_eq!(item_list(Vec::new(), "T".to_string()).report(&None), some("List: None"));
    assert_eq!(
        menu_list(Vec::new(), "T".to_string(), "S".to_string()).report(&reply),
        some("List: Some(\"hello\")")
    );
    assert_eq!(input_form("p", "i", "l").report(&reply), None);
    assert_eq!(table(Vec::new(), Vec::new()).report(&reply), None);
    assert_eq!(timer(1, 0).report(&reply), None);
    assert_eq!(stopwatch().report(&reply), None);
    assert_eq!(viewport("a/b".to_string()).report(&reply), None);
}

#[test]
fn value_is_what_a_widget_hands_back() {
    assert_eq!(
        input_form("p", "i", "l").value(some("Ann")),
        some("Input value: Some(\"Ann\")")
    );
    assert_eq!(input_form("p", "i", "l").value(None), some("Input value: None"));
    assert_eq!(item_list(Vec::new(), "T".to_string()).value(some("Pocky")), some("Pocky"));
    assert_eq!(item_list(Vec::new(), "T".to_string()).value(None), None);
    assert_eq!(
        menu_list(Vec::new(), "T".to_string(), "S".to_string()).value(some("Start")),
        some("Start")
    );
    assert_eq!(menu_list(Vec::new(), "T".to_string(), "S".to_string()).value(None), None);
    assert_eq!(text_area("Notes", 3).value(some("x")), None);
    assert_eq!(loader("m".to_string(), "s".to_string()).value(some("x")), None);
    assert_eq!(table(Vec::new(), Vec::new()).value(some("x")), None);
    assert_eq!(timer(1, 0).value(some("x")), None);
    assert_eq!(stopwatch().value(some("x")), None);
    assert_eq!(viewport("a/b".to_string()).value(some("x")), None);
}
