use homepage::file_type::FileType;
use homepage::manifest::{DuplicatePath, Manifest, Page};
use homepage::site::{build_manifest, static_pages, CheckMode};
use homepage::icon::UnusedIconFiles;

fn page(p: &str, t: FileType) -> Page {
    Page::new(p.to_string(), t)
}

#[test]
fn add_refuses_duplicate_path() {
    let mut m = Manifest::new("build".to_string());
    assert!(m.add(page("index.html", FileType::Html)).is_ok());
    assert!(m.add(page("style.css", FileType::Css)).is_ok());
    match m.add(page("index.html", FileType::Html)) {
        Err(DuplicatePath(p)) => assert_eq!(p, "index.html"),
        Ok(()) => panic!("duplicate accepted"),
    }
    assert_eq!(m.pages().len(), 2);
    assert!(m.contains_path("style.css"));
    assert!(!m.contains_path("reset.css"));
}

#[test]
fn extend_keeps_order() {
    let mut m = Manifest::new("build".to_string());
    m.extend(vec![page("a.html", FileType::Html), page("b.svg", FileType::Svg)]).unwrap();
    let paths: Vec<&str> = m.pages().iter().map(|p| p.path()).collect();
    assert_eq!(paths, vec!["a.html", "b.svg"]);
    assert_eq!(m.content_directory(), "build");
}

#[test]
fn extend_refuses_duplicate_within_list() {
    let mut m = Manifest::new("build".to_string());
    let r = m.extend(vec![
        page("a.html", FileType::Html),
        page("b.html", FileType::Html),
        page("a.html", FileType::Html),
    ]);
    assert!(matches!(r, Err(DuplicatePath(p)) if p == "a.html"));
}

#[test]
fn build_manifest_uses_build_directory() {
    let mut pages = static_pages();
    pages.push(page("blog/index.html", FileType::Html));
    let m = build_manifest(pages).unwrap();
    assert_eq!(m.content_directory(), "build");
    assert_eq!(m.pages().len(), 4);
}

#[test]
fn build_manifest_fails_on_duplicates() {
    let mut pages = static_pages();
    pages.push(page("style.css", FileType::Css));
    assert!(build_manifest(pages).is_err());
}

#[test]
fn static_pages_are_typed_by_extension() {
    let pages = static_pages();
    let v: Vec<(&str, FileType)> = pages.iter().map(|p| (p.path(), p.filetype())).collect();
    assert_eq!(
        v,
        vec![("reset.css", FileType::Css), ("style.css", FileType::Css), ("favicon.svg", FileType::Svg)]
    );
}

#[test]
fn check_mode_from_name() {
    assert_eq!(CheckMode::try_from("relaxed".to_string()).unwrap(), CheckMode::Relaxed);
    assert_eq!(CheckMode::try_from("strict".to_string()).unwrap(), CheckMode::Strict);
    assert_eq!(
        CheckMode::try_from("lenient".to_string()).unwrap_err(),
        "unknown checkmode value lenient"
    );
    assert_eq!(CheckMode::Relaxed.unused_icon_files(), UnusedIconFiles::Allow);
    assert_eq!(CheckMode::Strict.unused_icon_files(), UnusedIconFiles::Deny);
}
