use dirtable::FileRecord;

fn file(path: &str, size: u64) -> FileRecord {
    FileRecord { path: path.to_string(), size_in_bytes: size, is_directory: false }
}

fn dir(path: &str, size: u64) -> FileRecord {
    FileRecord { path: path.to_string(), size_in_bytes: size, is_directory: true }
}

#[test]
fn file_path_unchanged() {
    assert_eq!(file("a.txt", 12).formatted_filepath(), "a.txt");
}

#[test]
fn directory_path_gets_slash() {
    assert_eq!(dir("subdir", 4096).formatted_filepath(), "subdir/");
}

#[test]
fn directory_slash_is_single() {
    let formatted = dir("subdir", 4096).formatted_filepath();
    assert!(formatted.ends_with('/'));
    assert!(!formatted.ends_with("//"));
}

#[test]
fn file_has_no_trailing_slash() {
    assert!(!file("notes", 7).formatted_filepath().ends_with('/'));
}

#[test]
fn filesize_returns_size() {
    assert_eq!(file("a.txt", 12).filesize(), 12);
    assert_eq!(dir("subdir", 4096).filesize(), 4096);
}

#[test]
fn formatted_filesize_uses_separators() {
    assert_eq!(file("a.txt", 12).formatted_filesize(), "12");
    assert_eq!(dir("subdir", 4096).formatted_filesize(), "4,096");
}
