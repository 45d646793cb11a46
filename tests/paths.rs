use quantum_random::path::{
    app_home_dir, condense_str_vec, entropy_file_path, get_entropy_file_path, get_home_dir,
    host_style, resolve_home_dir, sanitize_path, style_for, PathError, PathStyle,
};

#[test]
fn sanitize_unix_drops_backslashes() {
    assert_eq!(sanitize_path("a\\b/c".to_string(), PathStyle::Unix), "ab/c");
}

#[test]
fn sanitize_windows_rewrites_slashes() {
    assert_eq!(sanitize_path("a/b\\c".to_string(), PathStyle::Windows), "a\\b\\c");
}

#[test]
fn sanitize_empty_path() {
    assert_eq!(sanitize_path(String::new(), PathStyle::Unix), "");
    assert_eq!(sanitize_path(String::new(), PathStyle::Windows), "");
}

#[test]
fn sanitize_keeps_other_characters() {
    assert_eq!(sanitize_path("/home/ü/x.bin".to_string(), PathStyle::Unix), "/home/ü/x.bin");
    assert_eq!(sanitize_path("C:\\ü\\x.bin".to_string(), PathStyle::Windows), "C:\\ü\\x.bin");
    assert_eq!(sanitize_path("\\\\\\".to_string(), PathStyle::Unix), "");
}

#[test]
fn sanitize_twice_is_sanitize_once() {
    for style in [PathStyle::Unix, PathStyle::Windows] {
        for p in ["a\\b/c", "a/b\\c", "//\\\\x", "", "plain"] {
            let once = sanitize_path(p.to_string(), style);
            let twice = sanitize_path(once.clone(), style);
            assert_eq!(once, twice);
        }
    }
}

#[test]
fn condense_joins_in_order() {
    assert_eq!(condense_str_vec(vec!["a", "bc", "", "d"]), "abcd");
    assert_eq!(condense_str_vec(vec![]), "");
}

#[test]
fn app_home_has_trailing_separator() {
    assert_eq!(app_home_dir("/home/u", PathStyle::Unix), "/home/u/.quantum_random/");
    assert_eq!(
        app_home_dir("C:\\Users\\u", PathStyle::Windows),
        "C:\\Users\\u\\.quantum_random\\"
    );
}

#[test]
fn entropy_path_below_home() {
    assert_eq!(
        entropy_file_path("/home/u/.quantum_random/", PathStyle::Unix),
        "/home/u/.quantum_random/cfg/local_storage.entropy"
    );
    assert_eq!(
        entropy_file_path("C:\\Users\\u\\.quantum_random\\", PathStyle::Windows),
        "C:\\Users\\u\\.quantum_random\\cfg\\local_storage.entropy"
    );
}

#[test]
fn resolve_home_without_user_home() {
    assert_eq!(resolve_home_dir(None, PathStyle::Unix), Err(PathError::HomeDirUnavailable));
}

#[test]
fn resolve_home_with_user_home() {
    assert_eq!(
        resolve_home_dir(Some("/root".to_string()), PathStyle::Unix),
        Ok("/root/.quantum_random/".to_string())
    );
}

#[test]
fn host_style_on_this_platform() {
    let expected = if std::path::MAIN_SEPARATOR == '\\' { PathStyle::Windows } else { PathStyle::Unix };
    assert_eq!(host_style(), expected);
}

#[test]
fn home_dir_of_current_user() {
    if let Ok(home) = get_home_dir(PathStyle::Unix) {
        assert!(home.ends_with("/.quantum_random/"));
        assert!(home.len() > "/.quantum_random/".len());
    }
    if let Ok(p) = get_entropy_file_path(PathStyle::Unix) {
        assert!(p.ends_with("/.quantum_random/cfg/local_storage.entropy"));
    }
}

#[test]
fn style_for_each_separator_answer() {
    assert_eq!(style_for(true), PathStyle::Windows);
    assert_eq!(style_for(false), PathStyle::Unix);
}
