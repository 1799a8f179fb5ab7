use fv::clipboard::format_paths;

#[test]
fn format_paths_joins_with_newline_and_no_trailing_newline() {
    let paths = vec![
        "/a/one.txt".to_string(),
        "/a/two.txt".to_string(),
        "/a/three.txt".to_string(),
    ];

    assert_eq!(format_paths(&paths), "/a/one.txt\n/a/two.txt\n/a/three.txt");
}

#[test]
fn format_paths_of_a_single_path_has_no_newline() {
    let paths = vec!["/a/only.txt".to_string()];

    assert_eq!(format_paths(&paths), "/a/only.txt");
}

#[test]
fn format_paths_of_empty_is_empty_string() {
    let paths: Vec<String> = Vec::new();

    assert_eq!(format_paths(&paths), "");
}
