use homepage::file_type::FileType;
use homepage::manifest::{Manifest, Page};
use homepage::route::{url_path, RouteError, RouteTable};

fn manifest() -> Manifest {
    let mut m = Manifest::new("build".to_string());
    m.add(Page::new("index.html".to_string(), FileType::Html)).unwrap();
    m.add(Page::new("icons/Github.svg".to_string(), FileType::Svg)).unwrap();
    m.add(Page::new("assets/profile.jpg".to_string(), FileType::Jpg)).unwrap();
    m
}

#[test]
fn url_path_prefixes_slash() {
    assert_eq!(url_path("blog/post.html"), "/blog/post.html");
    assert_eq!(url_path("index.html"), "/index.html");
}

#[test]
fn compile_makes_one_route_per_page() {
    let contents = vec![Some(b"<html/>".to_vec()), Some(b"<svg/>".to_vec()), Some(vec![0xff, 0xd8])];
    let table = RouteTable::compile(&manifest(), contents).unwrap();
    let routes: Vec<(&str, &str, &[u8])> = table
        .routes()
        .iter()
        .map(|r| (r.path(), r.content_type(), r.body().as_slice()))
        .collect();
    assert_eq!(
        routes,
        vec![
            ("/index.html", "text/html;charset=utf-8", &b"<html/>"[..]),
            ("/icons/Github.svg", "image/svg+xml", &b"<svg/>"[..]),
            ("/assets/profile.jpg", "image/jpeg", &[0xff, 0xd8][..]),
        ]
    );
}

#[test]
fn compile_fails_on_missing_file() {
    let contents = vec![Some(b"<html/>".to_vec()), None, Some(vec![1])];
    match RouteTable::compile(&manifest(), contents) {
        Err(RouteError::MissingFile(p)) => assert_eq!(p, "icons/Github.svg"),
        other => panic!("unexpected {other:?}"),
    }
}

#[test]
fn compile_fails_on_content_count() {
    let contents = vec![Some(b"<html/>".to_vec())];
    assert!(matches!(RouteTable::compile(&manifest(), contents), Err(RouteError::ContentCountMismatch)));
}

#[test]
fn dispatch_serves_exact_match() {
    let contents = vec![Some(b"<html/>".to_vec()), Some(b"<svg/>".to_vec()), Some(vec![0xff, 0xd8])];
    let table = RouteTable::compile(&manifest(), contents).unwrap();
    let r = table.dispatch("/icons/Github.svg");
    assert_eq!(r.status, 200);
    assert_eq!(r.content_type, "image/svg+xml");
    assert_eq!(r.body, b"<svg/>".to_vec());
}

#[test]
fn dispatch_answers_404_otherwise() {
    let contents = vec![Some(b"<html/>".to_vec()), Some(b"<svg/>".to_vec()), Some(vec![0xff, 0xd8])];
    let table = RouteTable::compile(&manifest(), contents).unwrap();
    let r = table.dispatch("/index.html/");
    assert_eq!(r.status, 404);
    assert_eq!(r.content_type, "text/plain;charset=utf-8");
    assert_eq!(String::from_utf8(r.body).unwrap(), "No route for /index.html/");
    assert_eq!(table.dispatch("index.html").status, 404);
    assert_eq!(table.find("/assets/profile.jpg"), Some(2));
}

#[test]
fn regeneration_answers_alike() {
    let build = |order: &[usize]| {
        let all = [
            ("index.html", FileType::Html, b"<html/>".to_vec()),
            ("icons/Github.svg", FileType::Svg, b"<svg/>".to_vec()),
            ("assets/profile.jpg", FileType::Jpg, vec![0xff, 0xd8]),
        ];
        let mut m = Manifest::new("build".to_string());
        let mut contents = vec![];
        for &i in order {
            m.add(Page::new(all[i].0.to_string(), all[i].1)).unwrap();
            contents.push(Some(all[i].2.clone()));
        }
        RouteTable::compile(&m, contents).unwrap()
    };
    let first = build(&[0, 1, 2]);
    let second = build(&[2, 0, 1]);
    for path in ["/index.html", "/icons/Github.svg", "/assets/profile.jpg", "/missing", "/"] {
        let a = first.dispatch(path);
        let b = second.dispatch(path);
        assert_eq!((a.status, a.content_type, a.body), (b.status, b.content_type, b.body));
    }
}

#[test]
fn respond_refuses_other_methods() {
    let contents = vec![Some(b"<html/>".to_vec()), Some(b"<svg/>".to_vec()), Some(vec![0xff, 0xd8])];
    let table = RouteTable::compile(&manifest(), contents).unwrap();
    assert_eq!(table.respond(true, "/index.html").status, 200);
    let r = table.respond(false, "/index.html");
    assert_eq!(r.status, 404);
    assert_eq!(String::from_utf8(r.body).unwrap(), "No route for /index.html");
}
