use dirtable::FileRecord;
use dirtable::render_table;

fn file(path: &str, size: u64) -> FileRecord {
    FileRecord { path: path.to_string(), size_in_bytes: size, is_directory: false }
}

fn dir(path: &str, size: u64) -> FileRecord {
    FileRecord { path: path.to_string(), size_in_bytes: size, is_directory: true }
}

#[test]
fn empty_directory_renders_minimum_table() {
    let expected = "┌──────────┬──────────┐\n│ Filename │ Filesize │\n├──────────┼──────────┤\n└──────────┴──────────┘\n";
    assert_eq!(render_table(&vec![]), expected);
}

#[test]
fn two_entries_with_directory() {
    let records = vec![file("a.txt", 12), dir("subdir", 4096)];
    let expected = "┌──────────┬──────────┐\n│ Filename │ Filesize │\n├──────────┼──────────┤\n│ a.txt    │       12 │\n│ subdir/  │    4,096 │\n└──────────┴──────────┘\n";
    assert_eq!(render_table(&records), expected);
}

#[test]
fn short_names_use_floor_widths() {
    let records = vec![file("b", 5), file("aa", 10)];
    let expected = "┌──────────┬──────────┐\n│ Filename │ Filesize │\n├──────────┼──────────┤\n│ b        │        5 │\n│ aa       │       10 │\n└──────────┴──────────┘\n";
    assert_eq!(render_table(&records), expected);
}

#[test]
fn long_name_widens_filename_column() {
    let records = vec![file("averylongfilename.txt", 1234567), file("b", 5)];
    let expected = "┌───────────────────────┬───────────┐\n│ Filename              │ Filesize  │\n├───────────────────────┼───────────┤\n│ averylongfilename.txt │ 1,234,567 │\n│ b                     │         5 │\n└───────────────────────┴───────────┘\n";
    assert_eq!(render_table(&records), expected);
}

#[test]
fn rendering_twice_is_byte_identical() {
    let records = vec![file("a.txt", 12), dir("subdir", 4096), file("b", 5)];
    let first = render_table(&records);
    let second = render_table(&records);
    assert_eq!(first.as_bytes(), second.as_bytes());
}
