use dirtable::FileRecord;
use dirtable::TableWidth;
use dirtable::inner_computed_table_width;
use dirtable::numeric_table_width;
use dirtable::string_table_width;

fn file(path: &str, size: u64) -> FileRecord {
    FileRecord { path: path.to_string(), size_in_bytes: size, is_directory: false }
}

fn dir(path: &str, size: u64) -> FileRecord {
    FileRecord { path: path.to_string(), size_in_bytes: size, is_directory: true }
}

#[test]
fn content_width_floors_at_eight() {
    assert_eq!(TableWidth::attribute_without_padding(0), 8);
    assert_eq!(TableWidth::attribute_without_padding(3), 8);
    assert_eq!(TableWidth::attribute_without_padding(8), 8);
    assert_eq!(TableWidth::attribute_without_padding(9), 9);
    assert_eq!(TableWidth::attribute_without_padding(12), 12);
}

#[test]
fn border_width_floors_at_ten() {
    let widths = inner_computed_table_width(0, 0);
    assert_eq!(widths.filename, 10);
    assert_eq!(widths.filesize, 10);
    let widths = inner_computed_table_width(8, 8);
    assert_eq!(widths.filename, 10);
    assert_eq!(widths.filesize, 10);
    let widths = inner_computed_table_width(9, 11);
    assert_eq!(widths.filename, 11);
    assert_eq!(widths.filesize, 13);
}

#[test]
fn string_width_of_empty_list_is_zero() {
    assert_eq!(string_table_width(&vec![]), 0);
}

#[test]
fn numeric_width_of_empty_list_is_zero() {
    assert_eq!(numeric_table_width(&vec![]), 0);
}

#[test]
fn string_width_is_longest_formatted_name() {
    let records = vec![file("b", 5), file("aa", 10)];
    assert_eq!(string_table_width(&records), 2);
    let records = vec![file("a.txt", 12), dir("subdir", 4096)];
    // "subdir/" counts the trailing slash.
    assert_eq!(string_table_width(&records), 7);
}

#[test]
fn numeric_width_is_longest_formatted_size() {
    let records = vec![file("b", 5), file("aa", 10)];
    assert_eq!(numeric_table_width(&records), 2);
    let records = vec![file("a.txt", 12), dir("subdir", 4096)];
    // "4,096" counts the separator.
    assert_eq!(numeric_table_width(&records), 5);
}
