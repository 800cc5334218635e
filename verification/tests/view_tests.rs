use libvirt_remote::kv_view::{print_row, KeyValueView};
use libvirt_remote::table_view::TableView;
use libvirt_remote::util::{char_width, padding};

#[test]
fn char_width_counts_columns() {
    assert_eq!(char_width("eth0"), 4);
    assert_eq!(char_width(""), 0);
    assert_eq!(char_width("名前"), 4);
}

#[test]
fn char_width_counts_ambiguous_as_wide() {
    assert_eq!(char_width("\u{2081}\u{2082}"), 4);
    assert_eq!(char_width("\u{a1}"), 2);
}

#[test]
fn padding_repeats() {
    assert_eq!(padding('-', 3), "---");
    assert_eq!(padding(' ', 0), "");
}

#[test]
fn table_renders_header_border_rows() {
    let mut view = TableView::new(vec!["Name", "State"]);
    view.add_row(vec!["eth0", "active"]);
    assert_eq!(
        view.print_table(),
        " Name   State   \n----------------\n eth0   active  \n\n"
    );
}

#[test]
fn table_without_rows() {
    let view = TableView::new(vec!["A"]);
    assert_eq!(view.print_table(), " A  \n----\n\n");
}

#[test]
fn table_with_wide_characters() {
    let mut view = TableView::new(vec!["名前"]);
    view.add_row(vec!["a"]);
    assert_eq!(view.print_table(), " 名前  \n-------\n a     \n\n");
}

#[test]
fn table_ignores_extra_cells() {
    let mut view = TableView::new(vec!["A"]);
    view.add_row(vec!["x", "ignored"]);
    assert_eq!(view.print_table(), " A  \n----\n x  \n\n");
}

#[test]
fn table_try_forms() {
    assert!(TableView::try_new(vec!["A"]).is_some());
    let wrapping = "x".repeat(70000);
    assert!(TableView::try_new(vec![wrapping.as_str()]).is_some());
    let long = "x".repeat(65533);
    assert!(TableView::try_new(vec![long.as_str()]).is_none());
    let mut view = TableView::new(vec!["A", "B"]);
    assert!(!view.try_add_row(vec!["only one"]));
    assert!(!view.try_add_row(vec!["a", long.as_str()]));
    assert_eq!(view.print_table(), " A   B  \n--------\n\n");
    assert!(view.try_add_row(vec!["a", "b"]));
    assert_eq!(view.print_table(), " A   B  \n--------\n a   b  \n\n");
}

#[test]
fn key_value_renders_aligned() {
    let mut view = KeyValueView::default();
    view.add_row("CPU(s):", "4".to_string());
    view.add_row("Memory size:", "1024 KiB".to_string());
    assert_eq!(
        view.print_kv(),
        "CPU(s):       4\nMemory size:  1024 KiB\n\n"
    );
}

#[test]
fn key_value_empty() {
    let view = KeyValueView::default();
    assert_eq!(view.print_kv(), "\n");
}

#[test]
fn key_value_try_add_row() {
    let mut view = KeyValueView::default();
    let long = "k".repeat(65534);
    assert!(!view.try_add_row(&long, "v".to_string()));
    assert_eq!(view.print_kv(), "\n");
    assert!(view.try_add_row("k", "v".to_string()));
    assert_eq!(view.print_kv(), "k  v\n\n");
}

#[test]
fn key_value_row() {
    assert_eq!(print_row("ab", "v", 6), "ab    v");
    assert_eq!(print_row("ab", "", 4), "ab  ");
}

#[test]
fn table_extra_cells_need_not_fit() {
    let mut view = TableView::new(vec!["A"]);
    let long = "x".repeat(65533);
    assert!(view.try_add_row(vec!["a", long.as_str()]));
    view.add_row(vec!["b", long.as_str()]);
    assert_eq!(view.print_table(), " A  \n----\n a  \n b  \n\n");
}

#[test]
fn table_width_is_widest_cell_plus_padding() {
    let mut view = TableView::new(vec!["H", "Head"]);
    view.add_row(vec!["abcde", "x"]);
    view.add_row(vec!["ab", "y"]);
    assert_eq!(
        view.print_table(),
        " H       Head  \n---------------\n abcde   x     \n ab      y     \n\n"
    );
}

#[test]
fn key_width_is_widest_key_plus_spacing() {
    let mut view = KeyValueView::default();
    view.add_row("a", "1".to_string());
    view.add_row("abcd", "2".to_string());
    view.add_row("ab", "3".to_string());
    assert_eq!(view.print_kv(), "a     1\nabcd  2\nab    3\n\n");
}
