use wallpaperize::paths::{
    check_source, file_name_of, has_suffix_ignoring_case, is_image_name, output_path_for,
    resolve_source_dir, target_dir_for, trim_trailing_separators, PathError, PathKind, SEPARATOR,
};

#[test]
fn separator_is_a_slash() {
    assert_eq!(SEPARATOR, '/');
}

#[test]
fn upper_case_extension_is_a_picture() {
    assert!(is_image_name("photo.JPEG"));
}

#[test]
fn extension_in_the_middle_is_no_picture() {
    assert!(!is_image_name("photo.jpg.bak"));
}

#[test]
fn every_listed_extension_is_a_picture() {
    for name in ["a.jpg", "a.jpeg", "a.png", "a.webp", "/some/dir/a.jpg", "a.b.png"] {
        assert!(is_image_name(name), "{}", name);
    }
}

#[test]
fn extensions_match_in_any_case() {
    for name in ["a.JPG", "a.Jpg", "a.jPeG", "a.PNG", "a.pNg", "a.WEBP", "a.WebP"] {
        assert!(is_image_name(name), "{}", name);
    }
}

#[test]
fn other_names_are_no_pictures() {
    for name in [
        "", "jpg", "png", "a.gif", "a.txt", "a.jpgg", "a.jpe", "a.jp", "a.pngx", "a.webp ",
        "a_jpg", "ajpeg", "a.jpg/", "a.jpg/b", "notes", ".", "..", "a.j\u{212A}pg", "a.tiff",
    ] {
        assert!(!is_image_name(name), "{}", name);
    }
}

#[test]
fn bare_extension_is_a_picture() {
    assert!(is_image_name(".jpg"));
    assert!(is_image_name(".webp"));
}

#[test]
fn names_beyond_ascii_are_told_by_their_extension() {
    assert!(is_image_name("caf\u{e9} \u{1F600}.PNG"));
    assert!(!is_image_name("photo.\u{FF2A}PG"));
    assert!(!is_image_name("photo.jp\u{e9}g"));
}

#[test]
fn suffix_is_compared_letter_by_letter() {
    assert!(has_suffix_ignoring_case("Hello.World", ".world"));
    assert!(has_suffix_ignoring_case("Hello.World", ".WORLD"));
    assert!(has_suffix_ignoring_case("abc", ""));
    assert!(has_suffix_ignoring_case("", ""));
    assert!(has_suffix_ignoring_case("abc", "abc"));
    assert!(!has_suffix_ignoring_case("abc", "xabc"));
    assert!(!has_suffix_ignoring_case("abc", "ab"));
    assert!(!has_suffix_ignoring_case("a@", "a`"));
    assert!(!has_suffix_ignoring_case("a[", "a{"));
    assert!(has_suffix_ignoring_case("aZ", "az"));
    assert!(has_suffix_ignoring_case("aA", "Aa"));
}

#[test]
fn file_name_follows_the_last_separator() {
    assert_eq!(file_name_of("/in/photo.JPEG"), "photo.JPEG");
    assert_eq!(file_name_of("photo.png"), "photo.png");
    assert_eq!(file_name_of("a/b/c/d.webp"), "d.webp");
    assert_eq!(file_name_of("/d.webp"), "d.webp");
    assert_eq!(file_name_of("a/b/"), "");
    assert_eq!(file_name_of("/"), "");
    assert_eq!(file_name_of(""), "");
    assert_eq!(file_name_of("/caf\u{e9}/\u{1F600} x.jpg"), "\u{1F600} x.jpg");
}

#[test]
fn trailing_separators_are_dropped() {
    assert_eq!(trim_trailing_separators("/home/u/pics/"), "/home/u/pics");
    assert_eq!(trim_trailing_separators("/home/u/pics///"), "/home/u/pics");
    assert_eq!(trim_trailing_separators("/home/u/pics"), "/home/u/pics");
    assert_eq!(trim_trailing_separators("/a//b/"), "/a//b");
    assert_eq!(trim_trailing_separators("/"), "");
    assert_eq!(trim_trailing_separators("///"), "");
    assert_eq!(trim_trailing_separators(""), "");
    assert_eq!(trim_trailing_separators("\u{e9}/"), "\u{e9}");
}

#[test]
fn source_without_shorthand_is_only_trimmed() {
    assert_eq!(resolve_source_dir("/home/u/pics/"), "/home/u/pics");
    assert_eq!(resolve_source_dir("pics"), "pics");
    assert_eq!(resolve_source_dir("a/~/b/"), "a/~/b");
    assert_eq!(resolve_source_dir("~other/pics/"), "~other/pics");
    assert_eq!(resolve_source_dir(""), "");
}

#[test]
fn home_shorthand_is_expanded() {
    let resolved = resolve_source_dir("~/pictures/");
    assert!(resolved.ends_with("/pictures"));
    assert!(!resolved.ends_with("/pictures/"));
    assert!(!resolved.starts_with('~'));
    let home = resolve_source_dir("~");
    assert!(!home.starts_with('~'));
    assert_eq!(resolved, format!("{}/pictures", home));
}

#[test]
fn only_a_directory_is_a_source() {
    assert_eq!(check_source(PathKind::Directory), Ok(()));
    assert_eq!(check_source(PathKind::Absent), Err(PathError::Missing));
    assert_eq!(check_source(PathKind::Other), Err(PathError::NotADirectory));
}

#[test]
fn target_is_the_sibling_named_adjusted() {
    assert_eq!(target_dir_for("/home/u/pics"), Ok("/home/u/pics - adjusted".to_string()));
    assert_eq!(target_dir_for("pics"), Ok("pics - adjusted".to_string()));
    assert_eq!(target_dir_for("/pics"), Ok("/pics - adjusted".to_string()));
    assert_eq!(target_dir_for("a/b c"), Ok("a/b c - adjusted".to_string()));
    assert_eq!(target_dir_for("a/..."), Ok("a/... - adjusted".to_string()));
    assert_eq!(target_dir_for("a/.b"), Ok("a/.b - adjusted".to_string()));
    assert_eq!(target_dir_for("a/b."), Ok("a/b. - adjusted".to_string()));
}

#[test]
fn source_without_a_name_has_no_target() {
    for source in ["", "/", "a/", ".", "..", "a/.", "a/..", "/.."] {
        assert_eq!(target_dir_for(source), Err(PathError::Unnamed), "{}", source);
    }
}

#[test]
fn output_keeps_the_name_and_its_case() {
    assert_eq!(
        output_path_for("/out - adjusted", "/in/photo.JPEG"),
        "/out - adjusted/adjusted - photo.JPEG"
    );
    assert_eq!(output_path_for("t", "a.png"), "t/adjusted - a.png");
    assert_eq!(output_path_for("", "x/y/a.png"), "/adjusted - a.png");
    assert_eq!(output_path_for("t", "x/"), "t/adjusted - ");
}
