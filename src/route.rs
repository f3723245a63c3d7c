use vstd::prelude::*;

use crate::file_type::{content_type_of, FileType};
use crate::manifest::{paths_unique, Manifest};
use crate::text::concat;

verus! {

/// The URL path under which a page is served: `/` followed by its path.
pub open spec fn url_path_of(page_path: Seq<char>) -> Seq<char> {
    "/"@ + page_path
}

/// The route that serves a page with the given content.
pub open spec fn route_of_page(page: (Seq<char>, FileType), body: Seq<u8>) -> (
    Seq<char>,
    Seq<char>,
    Seq<u8>,
) {
    (url_path_of(page.0), content_type_of(page.1), body)
}

/// No two routes share a URL path.
pub open spec fn route_paths_unique(routes: Seq<(Seq<char>, Seq<char>, Seq<u8>)>) -> bool {
    forall|i: int, j: int| 0 <= i < j < routes.len() ==> routes[i].0 != routes[j].0
}

/// The content type of the answer to a request that matches no route.
pub open spec fn not_found_content_type() -> Seq<char> {
    "text/plain;charset=utf-8"@
}

/// The text of the answer to a request for `path` that matches no route.
pub open spec fn not_found_message(path: Seq<char>) -> Seq<char> {
    "No route for "@ + path
}

/// One entry of the route table: a URL path, the content type it is served
/// with, and the content itself.
#[derive(Debug)]
pub struct Route {
    path: String,
    content_type: String,
    body: Vec<u8>,
}

impl View for Route {
    type V = (Seq<char>, Seq<char>, Seq<u8>);

    closed spec fn view(&self) -> (Seq<char>, Seq<char>, Seq<u8>) {
        (self.path@, self.content_type@, self.body@)
    }
}

impl Route {
    pub fn path(&self) -> (r: &str)
        ensures
            r@ == self@.0,
    {
        self.path.as_str()
    }

    pub fn content_type(&self) -> (r: &str)
        ensures
            r@ == self@.1,
    {
        self.content_type.as_str()
    }

    pub fn body(&self) -> (r: &Vec<u8>)
        ensures
            r@ == self@.2,
    {
        &self.body
    }
}

/// The answer to one request.
#[derive(Debug)]
pub struct Response {
    pub status: u16,
    pub content_type: String,
    pub body: Vec<u8>,
}

/// Why a route table could not be compiled.
#[derive(Debug)]
pub enum RouteError {
    /// The number of contents differs from the number of pages.
    ContentCountMismatch,
    /// The file of a page was not there; holds the page's path.
    MissingFile(String),
}

/// The routes of a site: one per page of its manifest, each with the page's
/// content, matched by exact URL path.
#[derive(Debug)]
pub struct RouteTable {
    routes: Vec<Route>,
}

/// The views of a sequence of routes.
pub open spec fn route_views(routes: Seq<Route>) -> Seq<(Seq<char>, Seq<char>, Seq<u8>)> {
    routes.map_values(|r: Route| r@)
}

/// The content of each page, where its file was found.
pub open spec fn content_views(contents: Seq<Option<Vec<u8>>>) -> Seq<Option<Seq<u8>>> {
    contents.map_values(
        |c: Option<Vec<u8>>|
            match c {
                Some(b) => Some(b@),
                None => None,
            },
    )
}

/// The route table compiled from a list of pages and their contents.
pub open spec fn routes_of(
    pages: Seq<(Seq<char>, FileType)>,
    contents: Seq<Option<Seq<u8>>>,
) -> Seq<(Seq<char>, Seq<char>, Seq<u8>)> {
    Seq::new(pages.len(), |i: int| route_of_page(pages[i], contents[i]->0))
}

/// The index of the route with the given URL path, if there is one.
pub open spec fn route_index(routes: Seq<(Seq<char>, Seq<char>, Seq<u8>)>, path: Seq<char>) -> Option<
    int,
> {
    if exists|i: int| 0 <= i < routes.len() && routes[i].0 == path {
        Some(choose|i: int| 0 <= i < routes.len() && routes[i].0 == path)
    } else {
        None
    }
}

/// The answer that a route table gives to a request for `path`: the route's
/// content type and content with status 200 where a route has that exact path,
/// else status 404 with a plain-text message naming the path.
pub open spec fn response_of(routes: Seq<(Seq<char>, Seq<char>, Seq<u8>)>, path: Seq<char>) -> (
    u16,
    Seq<char>,
    Seq<u8>,
) {
    match route_index(routes, path) {
        Some(i) => (200u16, routes[i].1, routes[i].2),
        None => (404u16, not_found_content_type(), vstd::utf8::encode_utf8(not_found_message(path))),
    }
}

/// The answer to a request for `path` that matches no route.
fn not_found(path: &str) -> (r: Response)
    ensures
        (r.status, r.content_type@, r.body@) == (
            404u16,
            not_found_content_type(),
            vstd::utf8::encode_utf8(not_found_message(path@)),
        ),
{
    let msg = concat("No route for ", path);
    let body = msg.as_str().as_bytes_vec();
    Response { status: 404, content_type: String::from_str("text/plain;charset=utf-8"), body }
}

/// The `/`-prefixed URL path of a page path.
pub fn url_path(page_path: &str) -> (r: String)
    ensures
        r@ == url_path_of(page_path@),
{
    concat("/", page_path)
}

proof fn lemma_url_path_injective(a: Seq<char>, b: Seq<char>)
    requires
        url_path_of(a) == url_path_of(b),
    ensures
        a == b,
{
    reveal_strlit("/");
    assert(a =~= url_path_of(a).subrange(1, url_path_of(a).len() as int));
    assert(b =~= url_path_of(b).subrange(1, url_path_of(b).len() as int));
}

/// Each page of a manifest has exactly one route in the compiled table: the one
/// at `/` followed by the page's path, served with the content type of the
/// page's file type and with the page's content.
pub proof fn lemma_route_table_complete(
    pages: Seq<(Seq<char>, FileType)>,
    contents: Seq<Option<Seq<u8>>>,
)
    requires
        paths_unique(pages),
        contents.len() == pages.len(),
        forall|i: int| 0 <= i < contents.len() ==> (#[trigger] contents[i]) is Some,
    ensures
        route_paths_unique(routes_of(pages, contents)),
        forall|i: int, j: int|
            0 <= i < pages.len() && 0 <= j < pages.len() ==> ((#[trigger] routes_of(
                pages,
                contents,
            )[j]).0 == url_path_of(#[trigger] pages[i].0) <==> j == i),
        forall|i: int|
            0 <= i < pages.len() ==> (#[trigger] routes_of(pages, contents)[i]) == (
                url_path_of(pages[i].0),
                content_type_of(pages[i].1),
                contents[i]->0,
            ),
{
    let routes = routes_of(pages, contents);
    assert forall|i: int, j: int|
        0 <= i < pages.len() && 0 <= j < pages.len() && (#[trigger] routes[j]).0 == url_path_of(
            #[trigger] pages[i].0,
        ) implies j == i by {
        lemma_url_path_injective(pages[j].0, pages[i].0);
    }
    assert forall|a: int, b: int| 0 <= a < b < routes.len() implies routes[a].0 != routes[b].0 by {
        if routes[a].0 == routes[b].0 {
            lemma_url_path_injective(pages[a].0, pages[b].0);
        }
    }
}

/// In a table whose URL paths are distinct, a request for a route's path is
/// answered with status 200, that route's content type and its content; a
/// request for any other path is answered with status 404.
pub proof fn lemma_dispatch_correct(routes: Seq<(Seq<char>, Seq<char>, Seq<u8>)>, path: Seq<char>)
    requires
        route_paths_unique(routes),
    ensures
        forall|i: int|
            0 <= i < routes.len() ==> response_of(routes, #[trigger] routes[i].0) == (
                200u16,
                routes[i].1,
                routes[i].2,
            ),
        (forall|i: int| 0 <= i < routes.len() ==> routes[i].0 != path) ==> response_of(
            routes,
            path,
        ).0 == 404u16,
{
    assert forall|i: int| 0 <= i < routes.len() implies response_of(
        routes,
        #[trigger] routes[i].0,
    ) == (200u16, routes[i].1, routes[i].2) by {
        assert(route_index(routes, routes[i].0) is Some);
        let j = route_index(routes, routes[i].0)->0;
        assert(routes[j].0 == routes[i].0);
        if j < i {
            assert(routes[j].0 != routes[i].0);
        } else if j > i {
            assert(routes[i].0 != routes[j].0);
        }
    }
}

/// Serving depends on which pages a manifest holds and on their contents, not
/// on the order of the pages: two runs whose manifests hold the same pages,
/// each with the same content, answer every request alike.
pub proof fn lemma_same_pages_same_answers(
    pages1: Seq<(Seq<char>, FileType)>,
    contents1: Seq<Option<Seq<u8>>>,
    pages2: Seq<(Seq<char>, FileType)>,
    contents2: Seq<Option<Seq<u8>>>,
    path: Seq<char>,
)
    requires
        paths_unique(pages1),
        paths_unique(pages2),
        contents1.len() == pages1.len(),
        contents2.len() == pages2.len(),
        forall|i: int| 0 <= i < contents1.len() ==> (#[trigger] contents1[i]) is Some,
        forall|j: int| 0 <= j < contents2.len() ==> (#[trigger] contents2[j]) is Some,
        forall|i: int|
            0 <= i < pages1.len() ==> exists|j: int|
                0 <= j < pages2.len() && #[trigger] pages2[j] == #[trigger] pages1[i]
                    && contents2[j] == contents1[i],
        forall|j: int|
            0 <= j < pages2.len() ==> exists|i: int|
                0 <= i < pages1.len() && #[trigger] pages1[i] == #[trigger] pages2[j]
                    && contents1[i] == contents2[j],
    ensures
        response_of(routes_of(pages1, contents1), path) == response_of(
            routes_of(pages2, contents2),
            path,
        ),
{
    let r1 = routes_of(pages1, contents1);
    let r2 = routes_of(pages2, contents2);
    lemma_route_table_complete(pages1, contents1);
    lemma_route_table_complete(pages2, contents2);
    lemma_dispatch_correct(r1, path);
    lemma_dispatch_correct(r2, path);
    if exists|i: int| 0 <= i < r1.len() && r1[i].0 == path {
        let i = choose|i: int| 0 <= i < r1.len() && r1[i].0 == path;
        assert(pages1[i] == pages1[i]);
        let j = choose|j: int|
            0 <= j < pages2.len() && pages2[j] == pages1[i] && contents2[j] == contents1[i];
        assert(r1[i] == r2[j]);
        assert(response_of(r1, r1[i].0) == (200u16, r1[i].1, r1[i].2));
        assert(response_of(r2, r2[j].0) == (200u16, r2[j].1, r2[j].2));
    } else {
        if exists|j: int| 0 <= j < r2.len() && r2[j].0 == path {
            let j = choose|j: int| 0 <= j < r2.len() && r2[j].0 == path;
            assert(pages2[j] == pages2[j]);
            let i = choose|i: int|
                0 <= i < pages1.len() && pages1[i] == pages2[j] && contents1[i] == contents2[j];
            assert(r1[i].0 == path);
        }
        assert(route_index(r1, path) is None);
        assert(route_index(r2, path) is None);
    }
}

impl RouteTable {
    /// No two routes share a URL path.
    pub open spec fn wf(&self) -> bool {
        route_paths_unique(self@)
    }

    pub fn routes(&self) -> (r: &Vec<Route>)
        ensures
            route_views(r@) == self@,
    {
        &self.routes
    }

    /// Compiles the route table of a manifest: for page `i`, a route at
    /// `/<path>` with the page's content type and `contents[i]`, the content of
    /// its file (`None` where the file was missing).
    pub fn compile(manifest: &Manifest, contents: Vec<Option<Vec<u8>>>) -> (r: Result<
        RouteTable,
        RouteError,
    >)
        requires
            manifest.wf(),
        ensures
            r is Ok <==> contents@.len() == manifest@.1.len() && forall|i: int|
                0 <= i < contents@.len() ==> (#[trigger] contents@[i]) is Some,
            match r {
                Ok(t) => t.wf() && t@ == routes_of(manifest@.1, content_views(contents@)),
                Err(RouteError::ContentCountMismatch) => contents@.len() != manifest@.1.len(),
                Err(RouteError::MissingFile(p)) => exists|i: int|
                    0 <= i < contents@.len() && contents@[i] is None && manifest@.1[i].0 == p@,
            },
    {
        let pages = manifest.pages();
        if contents.len() != pages.len() {
            return Err(RouteError::ContentCountMismatch);
        }
        let ghost pv = manifest@.1;
        let ghost cv = content_views(contents@);
        let ghost target = routes_of(pv, cv);
        let ghost orig = contents@;
        let n: usize = pages.len();
        let mut rest = contents;
        let mut routes: Vec<Route> = Vec::new();
        let mut i: usize = 0;
        while i < n
            invariant
                n == pages@.len(),
                n == orig.len(),
                orig == contents@,
                pv == manifest@.1,
                pv == crate::manifest::page_views(pages@),
                cv == content_views(orig),
                target == routes_of(pv, cv),
                0 <= i <= n,
                rest@ == orig.subrange(i as int, n as int),
                forall|k: int| 0 <= k < i ==> (#[trigger] orig[k]) is Some,
                route_views(routes@) == target.subrange(0, i as int),
            decreases n - i,
        {
            assert(rest@[0] == orig[i as int]);
            let content = rest.remove(0);
            assert(pv[i as int] == pages@[i as int]@);
            match content {
                None => {
                    let p = String::from_str(pages[i].path());
                    return Err(RouteError::MissingFile(p));
                },
                Some(body) => {
                    let path = url_path(pages[i].path());
                    let ct = String::from_str(pages[i].filetype().content_type());
                    let ghost before = routes@;
                    routes.push(Route { path, content_type: ct, body });
                    assert(cv[i as int] == Some(body@));
                    assert(route_views(routes@) =~= route_views(before).push(target[i as int]));
                    assert(target.subrange(0, i + 1) =~= target.subrange(0, i as int).push(
                        target[i as int],
                    ));
                    i = i + 1;
                },
            }
        }
        assert(target.subrange(0, n as int) =~= target);
        let t = RouteTable { routes };
        assert forall|a: int, b: int| 0 <= a < b < t@.len() implies t@[a].0 != t@[b].0 by {
            if t@[a].0 == t@[b].0 {
                lemma_url_path_injective(pv[a].0, pv[b].0);
            }
        }
        Ok(t)
    }

    /// Whether some route has exactly this URL path; its index if so.
    pub fn find(&self, path: &str) -> (r: Option<usize>)
        requires
            self.wf(),
        ensures
            match r {
                Some(i) => route_index(self@, path@) == Some(i as int),
                None => route_index(self@, path@) is None,
            },
    {
        let mut i: usize = 0;
        while i < self.routes.len()
            invariant
                0 <= i <= self.routes@.len(),
                self.wf(),
                forall|k: int| 0 <= k < i ==> self@[k].0 != path@,
            decreases self.routes@.len() - i,
        {
            assert(self@[i as int] == self.routes@[i as int]@);
            if crate::text::str_eq(self.routes[i].path.as_str(), path) {
                proof {
                    assert(self@[i as int].0 == path@);
                    assert(route_index(self@, path@) is Some);
                    let j = route_index(self@, path@)->0;
                    assert(0 <= j < self@.len() && self@[j].0 == path@);
                    if j < i {
                        assert(self@[j].0 != self@[i as int].0);
                    } else if j > i {
                        assert(self@[i as int].0 != self@[j].0);
                    }
                }
                return Some(i);
            }
            i = i + 1;
        }
        None
    }

    /// Answers a request: a `GET` as `dispatch` does, any other method with
    /// status 404.
    pub fn respond(&self, is_get: bool, path: &str) -> (r: Response)
        requires
            self.wf(),
        ensures
            is_get ==> (r.status, r.content_type@, r.body@) == response_of(self@, path@),
            !is_get ==> (r.status, r.content_type@, r.body@) == (
                404u16,
                not_found_content_type(),
                vstd::utf8::encode_utf8(not_found_message(path@)),
            ),
    {
        if is_get {
            self.dispatch(path)
        } else {
            not_found(path)
        }
    }

    /// Answers a request for `path` (see `response_of`).
    pub fn dispatch(&self, path: &str) -> (r: Response)
        requires
            self.wf(),
        ensures
            (r.status, r.content_type@, r.body@) == response_of(self@, path@),
    {
        match self.find(path) {
            Some(i) => {
                assert(self@[i as int] == self.routes@[i as int]@);
                let body = self.routes[i].body.clone();
                assert(body@ =~= self.routes@[i as int].body@);
                Response { status: 200, content_type: self.routes[i].content_type.clone(), body }
            },
            None => not_found(path),
        }
    }
}

impl View for RouteTable {
    type V = Seq<(Seq<char>, Seq<char>, Seq<u8>)>;

    closed spec fn view(&self) -> Seq<(Seq<char>, Seq<char>, Seq<u8>)> {
        route_views(self.routes@)
    }
}

} // verus!
