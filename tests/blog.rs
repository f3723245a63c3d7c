use homepage::blog::{html_file_name, index_page, listing_order, post_link, post_page, split_frontmatter, BlogError};
use homepage::file_type::FileType;

#[test]
fn split_at_separator_line() {
    let post = "title = \"Hi\"\ndate = \"2021-01-01T00:00:00Z\"\n---\n# Heading\r\n\nText";
    let (front, body) = split_frontmatter(post);
    assert_eq!(front, "title = \"Hi\"\ndate = \"2021-01-01T00:00:00Z\"\n");
    assert_eq!(body, "# Heading\n\nText\n");
}

#[test]
fn split_without_separator() {
    let (front, body) = split_frontmatter("a = 1\nb = 2\n");
    assert_eq!(front, "a = 1\nb = 2\n");
    assert_eq!(body, "");
    let (front, body) = split_frontmatter("");
    assert_eq!(front, "");
    assert_eq!(body, "");
}

#[test]
fn split_uses_first_separator_only() {
    let (front, body) = split_frontmatter("x = 1\n---\nbody\n---\nmore\n");
    assert_eq!(front, "x = 1\n");
    assert_eq!(body, "body\n---\nmore\n");
}

#[test]
fn html_name_of_markdown() {
    assert_eq!(html_file_name("my-post.md").unwrap(), "my-post.html");
    assert_eq!(html_file_name("v1.2.md").unwrap(), "v1.2.html");
}

#[test]
fn html_name_refuses_other_extensions() {
    match html_file_name("notes.txt") {
        Err(BlogError::NotMarkdown(n)) => assert_eq!(n, "notes.txt"),
        other => panic!("unexpected {other:?}"),
    }
    assert!(html_file_name("README").is_err());
}

#[test]
fn post_paths() {
    let p = post_page("my-post.html");
    assert_eq!(p.path(), "blog/my-post.html");
    assert_eq!(p.filetype(), FileType::Html);
    assert_eq!(post_link("my-post.html"), "/blog/my-post.html");
    assert_eq!(index_page().path(), "blog/index.html");
}

const NANOS: i128 = 1_000_000_000;

#[test]
fn listing_most_recent_first() {
    // 2021-01-01, 2023-06-15, 2022-03-10
    let ts = vec![1609459200 * NANOS, 1686787200 * NANOS, 1646870400 * NANOS];
    assert_eq!(listing_order(&ts), vec![1, 2, 0]);
}

#[test]
fn listing_keeps_ties_in_order_met() {
    let ts = vec![5, 7, 5, 7, 1];
    assert_eq!(listing_order(&ts), vec![1, 3, 0, 2, 4]);
    assert_eq!(listing_order(&vec![]), Vec::<usize>::new());
}

#[test]
fn listing_is_the_same_on_each_run() {
    let ts = vec![3, 9, 3, 1, 9, 4];
    assert_eq!(listing_order(&ts), listing_order(&ts));
    assert_eq!(listing_order(&ts), vec![1, 4, 5, 0, 2, 3]);
}

#[test]
fn blog_pages_list_posts_then_index() {
    let pages = homepage::blog::blog_pages(&vec!["a.html".to_string(), "b.html".to_string()]).unwrap();
    let paths: Vec<&str> = pages.iter().map(|p| p.path()).collect();
    assert_eq!(paths, vec!["blog/a.html", "blog/b.html", "blog/index.html"]);
}

#[test]
fn blog_pages_refuse_index_post() {
    let names = vec![html_file_name("index.md").unwrap()];
    match homepage::blog::blog_pages(&names) {
        Err(BlogError::DuplicatePage(p)) => assert_eq!(p, "blog/index.html"),
        other => panic!("unexpected {other:?}"),
    }
}
