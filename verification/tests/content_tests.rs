use hq::{get_content, join_lines, Document, Input, InputReadError, SelectorGroup};

#[test]
fn no_lines_join_to_the_empty_string() {
    assert_eq!(join_lines(&vec![]), "");
}

#[test]
fn lines_are_joined_with_nothing_between_them() {
    let lines = vec![
        String::from("<p>a</p>"),
        String::from("<p class=\"y\">"),
        String::from("b</p>"),
    ];
    assert_eq!(join_lines(&lines), "<p>a</p><p class=\"y\">b</p>");
}

#[test]
fn stdin_content_is_the_joined_lines() {
    let input = Input::Stdin {
        lines: vec![String::from("<p>a"), String::from("b</p>")],
    };
    assert_eq!(get_content(input).unwrap(), "<p>ab</p>");
}

#[test]
fn file_content_is_passed_through_unchanged() {
    let input = Input::File {
        path: String::from("page.html"),
        read: Ok(String::from("<div>kept as is</div>")),
    };
    assert_eq!(get_content(input).unwrap(), "<div>kept as is</div>");
}

#[test]
fn failed_file_read_reports_path_and_cause() {
    let input = Input::File {
        path: String::from("missing.html"),
        read: Err(String::from("No such file or directory (os error 2)")),
    };
    let e = get_content(input).unwrap_err();
    assert_eq!(e.path, "missing.html");
    assert_eq!(e.cause, "No such file or directory (os error 2)");
}

#[test]
fn read_error_message_names_the_path() {
    let e = InputReadError {
        path: String::from("missing.html"),
        cause: String::from("No such file or directory (os error 2)"),
    };
    let m = e.message();
    assert!(m.contains("missing.html"));
    assert_eq!(
        m,
        "could not read file `missing.html`: No such file or directory (os error 2)"
    );
}

#[test]
fn piped_lines_flow_through_to_matching() {
    let input = Input::Stdin {
        lines: vec![String::from("<p>a</p><p class=\"y\">b</p>")],
    };
    let content = get_content(input).unwrap();
    let group = SelectorGroup::parse(".y").unwrap();
    let doc = Document::parse_fragment(&content);
    let lines = hq::extract(&group, &doc);
    assert_eq!(lines.len(), 1);
    assert!(lines[0].contains("<p class=\\\"y\\\">b</p>"));
}
