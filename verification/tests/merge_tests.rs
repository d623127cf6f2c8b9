use sql_merge::{merge_sql_files, sort_entries, FileEntry, MergeError, Timestamp};

fn entry(path: &str, name: &str, content: &[u8]) -> FileEntry {
    FileEntry { path: path.to_string(), name: name.to_string(), content: content.to_vec() }
}

fn fixed_ts() -> Timestamp {
    Timestamp { year: 2020, month: 1, day: 1, hour: 0, minute: 0, second: 0 }
}

#[test]
fn test_merge_sql_files() {
    let entries = vec![
        entry("./test_sql/2.sql", "2.sql", b"SELECT * FROM table2;"),
        entry("./test_sql/1.sql", "1.sql", b"SELECT * FROM table1;"),
    ];
    let merged = merge_sql_files(entries, &fixed_ts()).unwrap();
    assert_eq!(
        merged,
        "-- [2020-01-01 00:00:00]\n\nSELECT * FROM table1;\nSELECT * FROM table2;"
    );
}

#[test]
fn test_get_files() {
    let entries = vec![
        entry("./test_files/file1.txt", "file1.txt", b"Test file 1"),
        entry("./test_files/file2.txt", "file2.txt", b"Test file 2"),
    ];
    let files = sort_entries(entries);
    assert_eq!(files.len(), 2);
    assert_eq!(files[0].path, "./test_files/file1.txt");
    assert_eq!(files[1].path, "./test_files/file2.txt");
}

#[test]
fn test_natural_order() {
    let entries = vec![
        entry("./d/10.sql", "10.sql", b"ten"),
        entry("./d/2.sql", "2.sql", b"two"),
        entry("./d/1.sql", "1.sql", b"one"),
    ];
    let merged = merge_sql_files(entries, &fixed_ts()).unwrap();
    assert_eq!(merged, "-- [2020-01-01 00:00:00]\n\none\ntwo\nten");
}

#[test]
fn test_sort_entries_natural() {
    let entries = vec![
        entry("./d/10.sql", "10.sql", b"a"),
        entry("./d/1.sql", "1.sql", b"b"),
        entry("./d/2.sql", "2.sql", b"c"),
    ];
    let sorted = sort_entries(entries);
    let names: Vec<&str> = sorted.iter().map(|e| e.name.as_str()).collect();
    assert_eq!(names, vec!["1.sql", "2.sql", "10.sql"]);
}

#[test]
fn test_sort_entries_stable_on_equal_names() {
    let entries = vec![
        entry("./a/x.sql", "x.sql", b"first"),
        entry("./b/x.sql", "x.sql", b"second"),
    ];
    let sorted = sort_entries(entries);
    assert_eq!(sorted[0].path, "./a/x.sql");
    assert_eq!(sorted[1].path, "./b/x.sql");
}

#[test]
fn test_exec_prefix_excluded() {
    let without = vec![
        entry("./d/1.sql", "1.sql", b"one"),
        entry("./d/2.sql", "2.sql", b"two"),
    ];
    let expected = merge_sql_files(without, &fixed_ts()).unwrap();
    for pos in 0..3 {
        let mut entries = vec![
            entry("./d/1.sql", "1.sql", b"one"),
            entry("./d/2.sql", "2.sql", b"two"),
        ];
        entries.insert(pos, entry("./d/exec_seed.sql", "exec_seed.sql", b"DROP TABLE x;"));
        let merged = merge_sql_files(entries, &fixed_ts()).unwrap();
        assert_eq!(merged, expected);
        assert!(!merged.contains("DROP TABLE"));
    }
}

#[test]
fn test_exec_prefix_is_literal() {
    // The exclusion is by literal prefix, not by word boundary.
    let entries = vec![
        entry("./d/executive.sql", "executive.sql", b"nope"),
        entry("./d/exe.sql", "exe.sql", b"kept"),
    ];
    let merged = merge_sql_files(entries, &fixed_ts()).unwrap();
    assert_eq!(merged, "-- [2020-01-01 00:00:00]\n\nkept");
}

#[test]
fn test_extension_filter() {
    let entries = vec![
        entry("./d/notes.txt", "notes.txt", b"just notes"),
        entry("./d/1.sql", "1.sql", b"one"),
        entry("./d/README", "README", b"readme"),
        entry("./d/upper.SQL", "upper.SQL", b"upper"),
        entry("./d/.sql", ".sql", b"hidden"),
    ];
    let merged = merge_sql_files(entries, &fixed_ts()).unwrap();
    assert_eq!(merged, "-- [2020-01-01 00:00:00]\n\none");
}

#[test]
fn test_is_sql_file() {
    assert!(sql_merge::is_sql_file("a.sql"));
    assert!(sql_merge::is_sql_file("a.b.sql"));
    assert!(sql_merge::is_sql_file("exe.sql"));
    assert!(!sql_merge::is_sql_file("exec.sql"));
    assert!(!sql_merge::is_sql_file("exec_seed.sql"));
    assert!(!sql_merge::is_sql_file("executive.sql"));
    assert!(!sql_merge::is_sql_file("a.SQL"));
    assert!(!sql_merge::is_sql_file("sql"));
    assert!(!sql_merge::is_sql_file(".sql"));
    assert!(!sql_merge::is_sql_file("notes.txt"));
    assert!(!sql_merge::is_sql_file(""));
}

#[test]
fn test_is_utf8_file_with_utf8_file() {
    assert_eq!(sql_merge::is_valid_utf8(b"SELECT * FROM table;"), true);
}

#[test]
fn test_is_utf8_file_with_non_utf8_file() {
    assert_eq!(sql_merge::is_valid_utf8(&[0xFF, 0xFE, 0x41, 0x00]), false);
}

#[test]
fn test_invalid_utf8_fails_and_names_path() {
    let entries = vec![
        entry("./d/1.sql", "1.sql", b"one"),
        entry("./d/bad.sql", "bad.sql", &[0xFF, 0xFE, 0x41, 0x00]),
    ];
    let err = merge_sql_files(entries, &fixed_ts()).unwrap_err();
    assert_eq!(err, MergeError::NotUtf8 { path: "./d/bad.sql".to_string() });
}

#[test]
fn test_invalid_utf8_names_first_in_natural_order() {
    // Both 2.sql and 10.sql are invalid; 2.sql comes first in natural order.
    let entries = vec![
        entry("./d/10.sql", "10.sql", &[0xC0]),
        entry("./d/2.sql", "2.sql", &[0xFF]),
        entry("./d/1.sql", "1.sql", b"fine"),
    ];
    let err = merge_sql_files(entries, &fixed_ts()).unwrap_err();
    assert_eq!(err, MergeError::NotUtf8 { path: "./d/2.sql".to_string() });
}

#[test]
fn test_invalid_utf8_in_excluded_file_is_ignored() {
    let entries = vec![
        entry("./d/1.sql", "1.sql", b"one"),
        entry("./d/exec_raw.sql", "exec_raw.sql", &[0xFF, 0xFE]),
        entry("./d/raw.bin", "raw.bin", &[0xFF, 0xFE]),
    ];
    let merged = merge_sql_files(entries, &fixed_ts()).unwrap();
    assert_eq!(merged, "-- [2020-01-01 00:00:00]\n\none");
}

#[test]
fn test_idempotent_merge() {
    let make = || {
        vec![
            entry("./d/2.sql", "2.sql", b"two"),
            entry("./d/1.sql", "1.sql", b"one"),
            entry("./d/notes.txt", "notes.txt", b"x"),
        ]
    };
    let first = merge_sql_files(make(), &fixed_ts()).unwrap();
    let second = merge_sql_files(make(), &fixed_ts()).unwrap();
    assert_eq!(first, second);
}

#[test]
fn test_empty_directory_gives_header_only() {
    let merged = merge_sql_files(Vec::new(), &fixed_ts()).unwrap();
    assert_eq!(merged, "-- [2020-01-01 00:00:00]\n");
}

#[test]
fn test_header_zero_padding() {
    let ts = Timestamp { year: 987, month: 12, day: 31, hour: 23, minute: 5, second: 59 };
    let merged = merge_sql_files(Vec::new(), &ts).unwrap();
    assert_eq!(merged, "-- [0987-12-31 23:05:59]\n");
}

#[test]
fn test_format_header() {
    let ts = Timestamp { year: 2024, month: 6, day: 3, hour: 9, minute: 41, second: 7 };
    assert_eq!(sql_merge::format_header(&ts), "-- [2024-06-03 09:41:07]\n");
}

#[test]
fn test_timestamp_wf() {
    assert!(fixed_ts().is_wf());
    let bad = Timestamp { year: 10000, month: 1, day: 1, hour: 0, minute: 0, second: 0 };
    assert!(!bad.is_wf());
    let bad_month = Timestamp { year: 2020, month: 0, day: 1, hour: 0, minute: 0, second: 0 };
    assert!(!bad_month.is_wf());
}

#[test]
fn test_content_concatenated_verbatim() {
    // Contents are appended verbatim: no trailing normalization, non-ASCII kept.
    let entries = vec![
        entry("./d/1.sql", "1.sql", "-- コメント\nSELECT 1;\n".as_bytes()),
        entry("./d/2.sql", "2.sql", b"SELECT 2;"),
    ];
    let merged = merge_sql_files(entries, &fixed_ts()).unwrap();
    assert_eq!(
        merged,
        "-- [2020-01-01 00:00:00]\n\n-- コメント\nSELECT 1;\n\nSELECT 2;"
    );
}
