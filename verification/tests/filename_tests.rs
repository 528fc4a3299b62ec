use tgbot_downloader::filename::{derive_file_name, is_safe_name, join_path, sanitize};

#[test]
fn sanitize_takes_out_every_separator() {
    assert_eq!(sanitize("a/b"), "ab");
    assert_eq!(sanitize("a\\b"), "ab");
    assert_eq!(sanitize("/"), "");
    assert_eq!(sanitize("//\\\\//"), "");
    assert_eq!(sanitize("video.mp4"), "video.mp4");
    assert_eq!(sanitize(""), "");
}

#[test]
fn sanitize_keeps_the_order_of_what_is_left() {
    assert_eq!(sanitize("/a/b/c/"), "abc");
    assert_eq!(sanitize("x\\y/z"), "xyz");
}

#[test]
fn sanitize_keeps_characters_of_any_width() {
    assert_eq!(sanitize("фильм/часть 1.mp4"), "фильмчасть 1.mp4");
    assert_eq!(sanitize("日本/語"), "日本語");
    assert_eq!(sanitize("a\u{2215}b"), "a\u{2215}b");
}

#[test]
fn traversal_is_flattened() {
    assert_eq!(sanitize("../../etc/passwd"), "....etcpasswd");
    assert_eq!(
        derive_file_name(Some("../../etc/passwd"), "AgADBAAD"),
        Some("....etcpasswd".to_string())
    );
    assert_eq!(
        join_path("/srv/media", "....etcpasswd"),
        "/srv/media/....etcpasswd"
    );
}

#[test]
fn safe_names() {
    assert!(is_safe_name("a"));
    assert!(is_safe_name("video.mp4"));
    assert!(is_safe_name("..."));
    assert!(is_safe_name(".hidden"));
    assert!(is_safe_name("..a"));
    assert!(is_safe_name("a.."));
    assert!(is_safe_name(". "));
}

#[test]
fn unsafe_names() {
    assert!(!is_safe_name(""));
    assert!(!is_safe_name("."));
    assert!(!is_safe_name(".."));
    assert!(!is_safe_name("a/b"));
    assert!(!is_safe_name("a\\b"));
    assert!(!is_safe_name("/"));
    assert!(!is_safe_name("../x"));
    assert!(!is_safe_name("x/"));
}

#[test]
fn suggested_name_is_used_when_given() {
    assert_eq!(
        derive_file_name(Some("holiday.mp4"), "AgADBAAD"),
        Some("holiday.mp4".to_string())
    );
}

#[test]
fn absent_name_falls_back_to_the_canonical_id() {
    assert_eq!(derive_file_name(None, "AgADBAAD"), Some("AgADBAAD".to_string()));
}

#[test]
fn empty_name_falls_back_to_the_canonical_id() {
    let name = derive_file_name(Some(""), "AgADBAAD");
    assert_eq!(name, Some("AgADBAAD".to_string()));
    assert!(!name.unwrap().is_empty());
}

#[test]
fn a_name_of_separators_only_falls_back() {
    assert_eq!(derive_file_name(Some("///"), "id-7"), Some("id-7".to_string()));
    assert_eq!(derive_file_name(Some("\\"), "id-7"), Some("id-7".to_string()));
}

#[test]
fn dot_names_fall_back() {
    assert_eq!(derive_file_name(Some("."), "id-7"), Some("id-7".to_string()));
    assert_eq!(derive_file_name(Some(".."), "id-7"), Some("id-7".to_string()));
    assert_eq!(derive_file_name(Some("../"), "id-7"), Some("id-7".to_string()));
    assert_eq!(derive_file_name(Some("./."), "id-7"), Some("id-7".to_string()));
    assert_eq!(derive_file_name(Some("/."), "id-7"), Some("id-7".to_string()));
}

#[test]
fn the_canonical_id_is_stripped_too() {
    assert_eq!(derive_file_name(None, "a/b"), Some("ab".to_string()));
    assert_eq!(derive_file_name(Some(""), "../x"), Some("..x".to_string()));
}

#[test]
fn no_name_when_nothing_is_usable() {
    assert_eq!(derive_file_name(None, ""), None);
    assert_eq!(derive_file_name(Some(""), ""), None);
    assert_eq!(derive_file_name(Some(".."), "."), None);
    assert_eq!(derive_file_name(Some("/"), "../"), None);
    assert_eq!(derive_file_name(None, "//"), None);
}

#[test]
fn join_puts_one_separator_between() {
    assert_eq!(join_path(".", "abc"), "./abc");
    assert_eq!(join_path("/srv/media", "a.mp4"), "/srv/media/a.mp4");
    assert_eq!(join_path("downloads", "x"), "downloads/x");
}

#[test]
fn join_adds_no_second_separator() {
    assert_eq!(join_path("/srv/media/", "a.mp4"), "/srv/media/a.mp4");
    assert_eq!(join_path("/", "a.mp4"), "/a.mp4");
}

#[test]
fn join_with_an_empty_directory_is_the_name() {
    assert_eq!(join_path("", "a.mp4"), "a.mp4");
}

#[test]
fn join_counts_characters_not_bytes() {
    assert_eq!(join_path("загрузки", "файл"), "загрузки/файл");
    assert_eq!(join_path("é", "x"), "é/x");
}

#[test]
fn derived_paths_stay_in_the_directory() {
    let dir = "/srv/media";
    let suggestions = [
        "../../etc/passwd",
        "..\\..\\boot.ini",
        "/etc/shadow",
        "a/../../b",
        "..",
        "",
        "plain.bin",
    ];
    for suggested in suggestions {
        let name = derive_file_name(Some(suggested), "fallback").unwrap();
        let path = join_path(dir, &name);
        let rest = path.strip_prefix("/srv/media/").unwrap();
        assert!(!rest.is_empty());
        assert!(!rest.contains('/'));
        assert!(!rest.contains('\\'));
        assert_ne!(rest, ".");
        assert_ne!(rest, "..");
    }
}
