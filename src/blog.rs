use vstd::prelude::*;

use crate::file_type::{extension, extension_of, FileType};
use crate::manifest::{page_views, paths_unique, repeated_path, DuplicatePath, Manifest, Page};
use crate::text::string_views;
use crate::path::{join, join_path};
use crate::text::{concat, str_eq};

verus! {

/// Index of the first occurrence of `c` in `s`, or -1 when `c` does not occur.
pub open spec fn first_index_of(s: Seq<char>, c: char) -> int
    decreases s.len(),
{
    if s.len() == 0 {
        -1
    } else if s[0] == c {
        0
    } else {
        let k = first_index_of(s.drop_first(), c);
        if k < 0 {
            -1
        } else {
            k + 1
        }
    }
}

proof fn lemma_first_index_of(s: Seq<char>, c: char, k: int)
    requires
        0 <= k <= s.len(),
        forall|j: int| 0 <= j < k ==> s[j] != c,
        k == s.len() || s[k] == c,
    ensures
        first_index_of(s, c) == if k == s.len() {
            -1
        } else {
            k
        },
    decreases s.len(),
{
    if s.len() > 0 && s[0] != c {
        assert forall|j: int| 0 <= j < k - 1 implies s.drop_first()[j] != c by {
            assert(s.drop_first()[j] == s[j + 1]);
        }
        lemma_first_index_of(s.drop_first(), c, k - 1);
    }
}

/// A line without the `\r` of a `\r\n` ending.
pub open spec fn strip_cr(line: Seq<char>) -> Seq<char> {
    if line.len() > 0 && line.last() == '\r' {
        line.drop_last()
    } else {
        line
    }
}

/// The lines of a text: split at each `\n`, with the `\r` of a `\r\n` ending
/// removed; a final line ending adds no empty line.
pub open spec fn lines_of(s: Seq<char>) -> Seq<Seq<char>>
    decreases s.len(),
{
    if s.len() == 0 {
        Seq::empty()
    } else {
        let k = first_index_of(s, '\n');
        if k < 0 || k >= s.len() {
            seq![s]
        } else {
            seq![strip_cr(s.subrange(0, k))] + lines_of(s.subrange(k + 1, s.len() as int))
        }
    }
}

/// Lines put back together, each followed by `\n`.
pub open spec fn joined(lines: Seq<Seq<char>>) -> Seq<char>
    decreases lines.len(),
{
    if lines.len() == 0 {
        Seq::empty()
    } else {
        joined(lines.drop_last()) + lines.last() + "\n"@
    }
}

/// The index of the first line that is exactly `---`, or the number of lines.
pub open spec fn separator_index(lines: Seq<Seq<char>>) -> int
    decreases lines.len(),
{
    if lines.len() == 0 {
        0
    } else if lines[0] == "---"@ {
        0
    } else {
        1 + separator_index(lines.drop_first())
    }
}

/// A post split at its separator line: the front matter is made of the lines
/// before the first `---` line, the body of the lines after it; each line is
/// followed by `\n`. Without a separator the whole post is front matter.
pub open spec fn split_post(s: Seq<char>) -> (Seq<char>, Seq<char>) {
    let ls = lines_of(s);
    let d = separator_index(ls);
    (
        joined(ls.subrange(0, d)),
        if d < ls.len() {
            joined(ls.subrange(d + 1, ls.len() as int))
        } else {
            Seq::empty()
        },
    )
}

proof fn lemma_separator_push(ls: Seq<Seq<char>>, x: Seq<char>)
    ensures
        0 <= separator_index(ls) <= ls.len(),
        separator_index(ls) < ls.len() ==> separator_index(ls.push(x)) == separator_index(ls),
        separator_index(ls) == ls.len() ==> separator_index(ls.push(x)) == if x == "---"@ {
            ls.len() as int
        } else {
            ls.len() + 1int
        },
    decreases ls.len(),
{
    if ls.len() == 0 {
        assert(ls.push(x)[0] == x);
        assert(ls.push(x).drop_first() =~= ls);
    } else {
        assert(ls.push(x)[0] == ls[0]);
        if ls[0] != "---"@ {
            assert(ls.push(x).drop_first() =~= ls.drop_first().push(x));
            lemma_separator_push(ls.drop_first(), x);
        }
    }
}

proof fn lemma_joined_push(ls: Seq<Seq<char>>, x: Seq<char>)
    ensures
        joined(ls.push(x)) == joined(ls) + x + "\n"@,
{
    assert(ls.push(x).drop_last() =~= ls);
}

/// Splits a blog post into its front matter and its body (see `split_post`).
pub fn split_frontmatter(post: &str) -> (r: (String, String))
    ensures
        (r.0@, r.1@) == split_post(post@),
{
    let n = post.unicode_len();
    let mut front = String::new();
    let mut rest = String::new();
    let mut in_front = true;
    let mut pos: usize = 0;
    let ghost mut done: Seq<Seq<char>> = Seq::empty();
    assert(post@.subrange(0, n as int) =~= post@);
    while pos < n
        invariant
            n == post@.len(),
            0 <= pos <= n,
            lines_of(post@) == done + lines_of(post@.subrange(pos as int, n as int)),
            in_front ==> separator_index(done) == done.len() && front@ == joined(done) && rest@
                == Seq::<char>::empty(),
            !in_front ==> separator_index(done) < done.len() && front@ == joined(
                done.subrange(0, separator_index(done)),
            ) && rest@ == joined(done.subrange(separator_index(done) + 1, done.len() as int)),
        decreases n - pos,
    {
        let ghost t = post@.subrange(pos as int, n as int);
        let mut e: usize = pos;
        while e < n && post.get_char(e) != '\n'
            invariant
                n == post@.len(),
                pos <= e <= n,
                forall|j: int| pos <= j < e ==> post@[j] != '\n',
            decreases n - e,
        {
            e = e + 1;
        }
        proof {
            assert forall|j: int| 0 <= j < e - pos implies t[j] != '\n' by {
                assert(t[j] == post@[pos + j]);
            }
            lemma_first_index_of(t, '\n', e - pos);
        }
        let line_end: usize = if e < n && e > pos && post.get_char(e - 1) == '\r' {
            e - 1
        } else {
            e
        };
        let line = post.substring_char(pos, line_end);
        let ghost next: int = if e < n {
            e + 1
        } else {
            n as int
        };
        proof {
            if e < n {
                assert(t.subrange(0, e - pos) =~= post@.subrange(pos as int, e as int));
                assert(line@ == strip_cr(t.subrange(0, e - pos)));
                assert(t.subrange(e - pos + 1, t.len() as int) =~= post@.subrange(
                    e + 1,
                    n as int,
                ));
            } else {
                assert(line@ == t);
                assert(post@.subrange(n as int, n as int) =~= Seq::<char>::empty());
            }
            assert(lines_of(t) == seq![line@] + lines_of(post@.subrange(next, n as int)));
            assert(done + lines_of(t) =~= done.push(line@) + lines_of(
                post@.subrange(next, n as int),
            ));
            lemma_separator_push(done, line@);
            lemma_joined_push(done, line@);
        }
        if in_front {
            if str_eq(line, "---") {
                in_front = false;
                proof {
                    assert(done.push(line@).subrange(0, done.len() as int) =~= done);
                    assert(done.push(line@).subrange(done.len() + 1int, done.len() + 1int)
                        =~= Seq::<Seq<char>>::empty());
                }
            } else {
                front.append(line);
                front.append("\n");
            }
        } else {
            proof {
                let d = separator_index(done);
                assert(done.push(line@).subrange(0, d) =~= done.subrange(0, d));
                assert(done.push(line@).subrange(d + 1, done.len() + 1int) =~= done.subrange(
                    d + 1,
                    done.len() as int,
                ).push(line@));
                lemma_joined_push(done.subrange(d + 1, done.len() as int), line@);
            }
            rest.append(line);
            rest.append("\n");
        }
        proof {
            done = done.push(line@);
        }
        pos = if e < n {
            e + 1
        } else {
            n
        };
    }
    proof {
        assert(post@.subrange(n as int, n as int) =~= Seq::<char>::empty());
        assert(done + Seq::<Seq<char>>::empty() =~= done);
        assert(done.subrange(0, done.len() as int) =~= done);
    }
    (front, rest)
}

/// What the front matter of a blog post holds. The date is kept as nanoseconds
/// since the Unix epoch.
#[derive(Debug)]
pub struct Frontmatter {
    pub title: String,
    pub timestamp: i128,
    pub summary: String,
    pub tags: Vec<String>,
}

/// A blog post that has been rendered: its front matter and the file name of
/// its HTML page.
#[derive(Debug)]
pub struct Blogpost {
    pub frontmatter: Frontmatter,
    pub html_filename: String,
}

/// Why a blog source file was refused.
#[derive(Debug)]
pub enum BlogError {
    /// The file's extension is not `md`; holds the file name.
    NotMarkdown(String),
    /// Two pages of the blog would share a path; holds the path.
    DuplicatePage(String),
}

/// The HTML file name of a markdown file name: its `.md` replaced by `.html`.
pub open spec fn html_name_of(name: Seq<char>) -> Seq<char> {
    name.subrange(0, name.len() - 3) + ".html"@
}

/// The page path of a post's HTML file: `blog/<file>`.
pub open spec fn post_path_of(html_name: Seq<char>) -> Seq<char> {
    join_path("blog"@, html_name)
}

/// The link to a post's HTML file: `/blog/<file>`.
pub open spec fn post_link_of(html_name: Seq<char>) -> Seq<char> {
    join_path("/blog"@, html_name)
}

/// The file name of the HTML page of a blog post's markdown file; any other
/// extension than `md` is refused.
pub fn html_file_name(name: &str) -> (r: Result<String, BlogError>)
    ensures
        r is Ok <==> extension_of(name@) == Some("md"@),
        match r {
            Ok(h) => h@ == html_name_of(name@),
            Err(BlogError::NotMarkdown(p)) => p@ == name@,
            Err(BlogError::DuplicatePage(_)) => false,
        },
{
    match extension(name) {
        Some(e) => {
            if str_eq(e, "md") {
                let n = name.unicode_len();
                proof {
                    reveal_strlit("md");
                    let s = crate::text::last_index_of(name@, '/') + 1;
                    crate::text::lemma_last_index_of(name@, '/');
                    let f = crate::file_type::file_name_of(name@);
                    crate::text::lemma_last_index_of(f, '.');
                    let d = crate::text::last_index_of(f, '.');
                    assert(e@ == "md"@);
                    assert(extension_of(name@) == Some(e@));
                    assert(d > 0);
                    assert(f.subrange(d + 1, f.len() as int) == "md"@);
                    assert("md"@.len() == 2);
                    assert(d < f.len());
                    assert(f.len() == d + 3);
                    assert(name@.len() == s + f.len());
                }
                let stem = name.substring_char(0, n - 3);
                Ok(concat(stem, ".html"))
            } else {
                Err(BlogError::NotMarkdown(String::from_str(name)))
            }
        },
        None => Err(BlogError::NotMarkdown(String::from_str(name))),
    }
}

/// The page of a post's HTML file.
pub fn post_page(html_name: &str) -> (r: Page)
    ensures
        r@ == (post_path_of(html_name@), FileType::Html),
{
    Page::new(join("blog", html_name), FileType::Html)
}

/// The link under which a post's HTML file is served.
pub fn post_link(html_name: &str) -> (r: String)
    ensures
        r@ == post_link_of(html_name@),
{
    join("/blog", html_name)
}

/// The page of the blog's index, `blog/index.html`.
pub fn index_page() -> (r: Page)
    ensures
        r@ == ("blog/index.html"@, FileType::Html),
{
    Page::new(String::from_str("blog/index.html"), FileType::Html)
}

/// The pages of the blog: one per post's HTML file, in order, then the index.
pub open spec fn blog_pages_of(html_names: Seq<Seq<char>>) -> Seq<(Seq<char>, FileType)> {
    html_names.map_values(|n: Seq<char>| (post_path_of(n), FileType::Html)).push(
        ("blog/index.html"@, FileType::Html),
    )
}

/// The pages of the blog for the given post HTML file names (see
/// `blog_pages_of`); fails when two of them would share a path, as a post
/// named `index.md` would with the index.
pub fn blog_pages(html_names: &Vec<String>) -> (r: Result<Vec<Page>, BlogError>)
    ensures
        r is Ok <==> paths_unique(blog_pages_of(string_views(html_names@))),
        match r {
            Ok(v) => page_views(v@) == blog_pages_of(string_views(html_names@)),
            Err(BlogError::DuplicatePage(p)) => repeated_path(
                blog_pages_of(string_views(html_names@)),
                p@,
            ),
            Err(BlogError::NotMarkdown(_)) => false,
        },
{
    let ghost names = string_views(html_names@);
    let ghost target = blog_pages_of(names);
    let mut pages: Vec<Page> = Vec::new();
    let mut i: usize = 0;
    while i < html_names.len()
        invariant
            0 <= i <= html_names@.len(),
            names == string_views(html_names@),
            target == blog_pages_of(names),
            page_views(pages@) == target.subrange(0, i as int),
        decreases html_names@.len() - i,
    {
        let ghost before = pages@;
        pages.push(post_page(html_names[i].as_str()));
        assert(names[i as int] == html_names@[i as int]@);
        assert(page_views(pages@) =~= page_views(before).push(target[i as int]));
        assert(target.subrange(0, i + 1) =~= target.subrange(0, i as int).push(target[i as int]));
        i = i + 1;
    }
    let ghost before = pages@;
    pages.push(index_page());
    assert(page_views(pages@) =~= page_views(before).push(target[i as int]));
    assert(target =~= target.subrange(0, i as int).push(target[i as int]));
    let mut m = Manifest::new(String::new());
    let ghost v = page_views(pages@);
    let r = m.extend(pages);
    assert(Seq::<(Seq<char>, FileType)>::empty() + v =~= v);
    match r {
        Ok(()) => Ok(m.into_pages()),
        Err(DuplicatePath(p)) => Err(BlogError::DuplicatePage(p)),
    }
}

/// Post `a` comes before post `b` in the listing: it is more recent, or as
/// recent and met first.
pub open spec fn listed_before(ts: Seq<i128>, a: int, b: int) -> bool {
    ts[a] > ts[b] || (ts[a] == ts[b] && a < b)
}

/// `r` is an order in which the index lists posts with timestamps `ts`: as
/// many entries as posts, each a post's index, most recent first and posts of
/// equal timestamps in the order met.
pub open spec fn is_listing_order(ts: Seq<i128>, r: Seq<usize>) -> bool {
    &&& r.len() == ts.len()
    &&& forall|k: int| 0 <= k < r.len() ==> r[k] < ts.len()
    &&& forall|a: int, b: int| 0 <= a < b < r.len() ==> listed_before(ts, r[a] as int, r[b] as int)
}

/// Index `u` occurs in `r`.
spec fn occurs(r: Seq<usize>, u: int) -> bool {
    exists|k: int| 0 <= k < r.len() && r[k] as int == u
}

/// Every post's index occurs in a listing order.
proof fn lemma_listing_covers(ts: Seq<i128>, r: Seq<usize>)
    requires
        is_listing_order(ts, r),
    ensures
        forall|u: int| 0 <= u < ts.len() ==> #[trigger] occurs(r, u),
{
    let n = ts.len() as int;
    let m = r.map_values(|u: usize| u as int);
    assert forall|i: int, j: int| 0 <= i < m.len() && 0 <= j < m.len() && i != j implies m[i]
        != m[j] by {
        if i < j {
            assert(listed_before(ts, r[i] as int, r[j] as int));
        } else {
            assert(listed_before(ts, r[j] as int, r[i] as int));
        }
    }
    assert(m.no_duplicates());
    m.unique_seq_to_set();
    let range = vstd::set_lib::set_int_range(0, n);
    vstd::set_lib::lemma_int_range(0, n);
    assert forall|x: int| m.to_set().contains(x) implies range.contains(x) by {
        let k = choose|k: int| 0 <= k < m.len() && m[k] == x;
    }
    vstd::set_lib::lemma_len_subset(m.to_set(), range);
    vstd::set_lib::lemma_subset_equality(m.to_set(), range);
    assert forall|u: int| 0 <= u < n implies #[trigger] occurs(r, u) by {
        assert(range.contains(u));
        assert(m.to_set().contains(u));
        let k = choose|k: int| 0 <= k < m.len() && m[k] == u;
        assert(r[k] as int == u);
    }
}

proof fn lemma_listing_prefix_equal(ts: Seq<i128>, a: Seq<usize>, b: Seq<usize>, k: int)
    requires
        is_listing_order(ts, a),
        is_listing_order(ts, b),
        0 <= k <= a.len(),
    ensures
        forall|j: int| 0 <= j < k ==> a[j] == b[j],
    decreases k,
{
    if k > 0 {
        let p = k - 1;
        lemma_listing_prefix_equal(ts, a, b, p);
        if a[p] != b[p] {
            lemma_listing_covers(ts, a);
            lemma_listing_covers(ts, b);
            assert(occurs(a, b[p] as int));
            assert(occurs(b, a[p] as int));
            let j = choose|j: int| 0 <= j < a.len() && a[j] as int == b[p] as int;
            let i = choose|i: int| 0 <= i < b.len() && b[i] as int == a[p] as int;
            if j < p {
                assert(a[j] == b[j]);
                assert(listed_before(ts, b[j] as int, b[p] as int));
            }
            if i < p {
                assert(a[i] == b[i]);
                assert(listed_before(ts, a[i] as int, a[p] as int));
            }
            assert(listed_before(ts, a[p] as int, a[j] as int));
            assert(listed_before(ts, b[p] as int, b[i] as int));
        }
    }
}

/// The listing order is fixed by the timestamps alone: two orders that both
/// list posts with the same timestamps most recent first, ties in the order
/// met, are equal. Regenerating the blog index thus lists its posts the same
/// way each time.
pub proof fn lemma_listing_order_unique(ts: Seq<i128>, a: Seq<usize>, b: Seq<usize>)
    requires
        is_listing_order(ts, a),
        is_listing_order(ts, b),
    ensures
        a == b,
{
    lemma_listing_prefix_equal(ts, a, b, a.len() as int);
    assert(a =~= b);
}

/// The order in which the index lists posts with the given timestamps: every
/// index once, most recent first, posts of equal timestamps in the order met.
pub fn listing_order(timestamps: &Vec<i128>) -> (r: Vec<usize>)
    ensures
        is_listing_order(timestamps@, r@),
{
    let ts = timestamps;
    let n = ts.len();
    let mut order: Vec<usize> = Vec::new();
    let mut i: usize = 0;
    while i < n
        invariant
            n == ts@.len(),
            0 <= i <= n,
            order@.len() == i,
            forall|k: int| 0 <= k < order@.len() ==> order@[k] < i,
            forall|a: int, b: int|
                0 <= a < b < order@.len() ==> listed_before(ts@, order@[a] as int, order@[b] as int),
        decreases n - i,
    {
        let mut p: usize = 0;
        while p < order.len() && ts[order[p]] >= ts[i]
            invariant
                n == ts@.len(),
                i < n,
                order@.len() == i,
                forall|k: int| 0 <= k < order@.len() ==> order@[k] < i,
                0 <= p <= order@.len(),
                forall|k: int| 0 <= k < p ==> ts@[order@[k] as int] >= ts@[i as int],
            decreases order@.len() - p,
        {
            p = p + 1;
        }
        let ghost before = order@;
        order.insert(p, i);
        proof {
            assert forall|a: int, b: int| 0 <= a < b < order@.len() implies listed_before(
                ts@,
                order@[a] as int,
                order@[b] as int,
            ) by {
                if b < p {
                    assert(order@[a] == before[a] && order@[b] == before[b]);
                } else if b == p {
                    assert(order@[a] == before[a]);
                } else if a < p {
                    assert(order@[a] == before[a] && order@[b] == before[b - 1]);
                } else if a == p {
                    assert(order@[b] == before[b - 1]);
                    assert(ts@[before[p as int] as int] < ts@[i as int]);
                    if b - 1 > p {
                        assert(listed_before(ts@, before[p as int] as int, before[b - 1] as int));
                    }
                } else {
                    assert(order@[a] == before[a - 1] && order@[b] == before[b - 1]);
                }
            }
        }
        i = i + 1;
    }
    order
}

} // verus!
