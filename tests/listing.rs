use alpaca::listing::as_list_item;

#[test]
fn list_item_indents_later_lines() {
    assert_eq!(
        as_list_item("action: Encrypt\nroot: TEMP\nfilepath: x.txt\n"),
        "- action: Encrypt\n  root: TEMP\n  filepath: x.txt\n"
    );
}

#[test]
fn list_item_adds_final_line_break() {
    assert_eq!(as_list_item("action: Decrypt\nfilepath: a"), "- action: Decrypt\n  filepath: a\n");
    assert_eq!(as_list_item("a: b"), "- a: b\n");
}

#[test]
fn list_item_of_empty_text_is_empty() {
    assert_eq!(as_list_item(""), "");
}

#[test]
fn list_item_keeps_blank_lines_indented() {
    assert_eq!(as_list_item("a: 1\n\nb: 2\n"), "- a: 1\n  \n  b: 2\n");
}
