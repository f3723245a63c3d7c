use homepage::file_type::FileType;
use homepage::icon::{IconError, IconsUnverified, UnusedIconFiles};

fn registry(files: &[&str]) -> IconsUnverified {
    IconsUnverified::new(files.iter().map(|f| f.to_string()).collect())
}

#[test]
fn reference_resolves_paths() {
    let mut icons = registry(&["Github.svg", "Rss.svg"]);
    let icon = icons.reference("Github").unwrap();
    assert_eq!(icon.id(), "Github");
    assert_eq!(icon.filename(), "Github.svg");
    assert_eq!(icon.output_path(), "/icons/Github.svg");
    assert_eq!(icon.local_path("/home/site"), "/home/site/static/icons/Github.svg");
    assert_eq!(icon.local_path("/home/site/"), "/home/site/static/icons/Github.svg");
}

#[test]
fn reference_fails_on_missing_file() {
    let mut icons = registry(&["Github.svg"]);
    match icons.reference("Keybase") {
        Err(IconError::Missing(id)) => assert_eq!(id, "Keybase"),
        other => panic!("unexpected {other:?}"),
    }
}

#[test]
fn strict_check_refuses_unreferenced_file() {
    let mut icons = registry(&["Github.svg", "Unused.svg"]);
    icons.reference("Github").unwrap();
    match icons.verify_all(UnusedIconFiles::Deny) {
        Err(IconError::Superfluous(f)) => assert_eq!(f, "Unused.svg"),
        other => panic!("unexpected {other:?}"),
    }
}

#[test]
fn strict_check_passes_when_all_referenced() {
    let mut icons = registry(&["Github.svg", "Rss.svg"]);
    icons.reference("Rss").unwrap();
    icons.reference("Github").unwrap();
    icons.reference("Rss").unwrap();
    let verified = icons.verify_all(UnusedIconFiles::Deny).unwrap();
    assert_eq!(verified.available().len(), 2);
}

#[test]
fn relaxed_check_allows_unreferenced_file() {
    let icons = registry(&["Github.svg", "Unused.svg"]);
    assert!(icons.verify_all(UnusedIconFiles::Allow).is_ok());
}

#[test]
fn copy_all_lists_icon_pages() {
    let icons = registry(&["Github.svg", "Rss.svg"]);
    let pages = icons.verify_all(UnusedIconFiles::Allow).unwrap().copy_all().unwrap();
    let v: Vec<(&str, FileType)> = pages.iter().map(|p| (p.path(), p.filetype())).collect();
    assert_eq!(v, vec![("icons/Github.svg", FileType::Svg), ("icons/Rss.svg", FileType::Svg)]);
}

#[test]
fn copy_all_fails_on_unknown_type() {
    let icons = registry(&["Github.svg", "notes.txt"]);
    assert!(icons.verify_all(UnusedIconFiles::Allow).unwrap().copy_all().is_err());
}
