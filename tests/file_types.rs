use homepage::file_type::{extension, FileType, FileTypeError};
use homepage::manifest::pages_for_paths;

#[test]
fn detect_known_extensions() {
    assert_eq!(FileType::detect("assets/profile.jpg").unwrap(), FileType::Jpg);
    assert_eq!(FileType::detect("icons/Github.svg").unwrap(), FileType::Svg);
    assert_eq!(FileType::detect("assets/badges/aws.png").unwrap(), FileType::Png);
    assert_eq!(FileType::detect("style.css").unwrap(), FileType::Css);
    assert_eq!(FileType::detect("blog/index.html").unwrap(), FileType::Html);
}

#[test]
fn detect_unknown_extension() {
    match FileType::detect("assets/notes.txt") {
        Err(FileTypeError::UnknownExtension(e)) => assert_eq!(e, "txt"),
        other => panic!("unexpected {other:?}"),
    }
}

#[test]
fn detect_missing_extension() {
    match FileType::detect("assets/README") {
        Err(FileTypeError::NoExtension(p)) => assert_eq!(p, "assets/README"),
        other => panic!("unexpected {other:?}"),
    }
    assert!(matches!(FileType::detect("assets/.hidden"), Err(FileTypeError::NoExtension(_))));
}

#[test]
fn extension_uses_last_component() {
    assert_eq!(extension("a.d/file"), None);
    assert_eq!(extension("a/b.tar.gz"), Some("gz"));
    assert_eq!(extension("name."), Some(""));
}

#[test]
fn content_types_follow_fixed_table() {
    assert_eq!(FileType::Html.content_type(), "text/html;charset=utf-8");
    assert_eq!(FileType::Svg.content_type(), "image/svg+xml");
    assert_eq!(FileType::Css.content_type(), "text/css;charset=utf-8");
    assert_eq!(FileType::Jpg.content_type(), "image/jpeg");
    assert_eq!(FileType::Png.content_type(), "image/png");
}

#[test]
fn error_messages() {
    assert_eq!(FileTypeError::UnknownExtension("txt".to_string()).message(), "unknown extension: txt");
    assert_eq!(FileTypeError::NoExtension("a/b".to_string()).message(), "no file extension: a/b");
}

#[test]
fn pages_for_paths_types_each_path() {
    let paths = vec!["assets/a.jpg".to_string(), "assets/sub/b.png".to_string()];
    let pages = pages_for_paths(&paths).unwrap();
    assert_eq!(pages.len(), 2);
    assert_eq!(pages[0].path(), "assets/a.jpg");
    assert_eq!(pages[0].filetype(), FileType::Jpg);
    assert_eq!(pages[1].path(), "assets/sub/b.png");
    assert_eq!(pages[1].filetype(), FileType::Png);
}

#[test]
fn pages_for_paths_fails_on_unknown_type() {
    let paths = vec!["assets/a.jpg".to_string(), "assets/b.gif".to_string()];
    match pages_for_paths(&paths) {
        Err(FileTypeError::UnknownExtension(e)) => assert_eq!(e, "gif"),
        other => panic!("unexpected {other:?}"),
    }
}
