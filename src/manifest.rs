use vstd::prelude::*;

use crate::file_type::{file_type_of_path, FileType, FileTypeError};
use crate::text::string_views;

verus! {

/// One output file of the site: its path relative to the content directory,
/// and its file type.
#[derive(Debug)]
pub struct Page {
    path: String,
    filetype: FileType,
}

impl View for Page {
    type V = (Seq<char>, FileType);

    closed spec fn view(&self) -> (Seq<char>, FileType) {
        (self.path@, self.filetype)
    }
}

/// The views of a sequence of pages.
pub open spec fn page_views(pages: Seq<Page>) -> Seq<(Seq<char>, FileType)> {
    pages.map_values(|p: Page| p@)
}

/// No two pages share a path.
pub open spec fn paths_unique(pages: Seq<(Seq<char>, FileType)>) -> bool {
    forall|i: int, j: int| 0 <= i < j < pages.len() ==> pages[i].0 != pages[j].0
}

/// Two different pages of the list have the given path.
pub open spec fn repeated_path(pages: Seq<(Seq<char>, FileType)>, path: Seq<char>) -> bool {
    exists|i: int, j: int|
        0 <= i < j < pages.len() && #[trigger] pages[i].0 == path && #[trigger] pages[j].0 == path
}

/// Some page has the given path.
pub open spec fn has_path(pages: Seq<(Seq<char>, FileType)>, path: Seq<char>) -> bool {
    exists|i: int| 0 <= i < pages.len() && pages[i].0 == path
}

/// Every path has a known file type.
pub open spec fn typed_pages(paths: Seq<Seq<char>>) -> bool {
    forall|i: int| 0 <= i < paths.len() ==> (#[trigger] file_type_of_path(paths[i])) is Some
}

/// One page per path, typed by the path's extension.
pub open spec fn pages_from_paths(paths: Seq<Seq<char>>) -> Seq<(Seq<char>, FileType)> {
    paths.map_values(|p: Seq<char>| (p, file_type_of_path(p)->0))
}

/// One page per path, in order, each typed by its path's extension; fails on
/// the first path whose type is unknown.
pub fn pages_for_paths(paths: &Vec<String>) -> (r: Result<Vec<Page>, FileTypeError>)
    ensures
        r is Ok <==> typed_pages(string_views(paths@)),
        r matches Ok(v) ==> page_views(v@) == pages_from_paths(string_views(paths@)),
        r matches Err(e) ==> exists|i: int|
            0 <= i < paths@.len() && typed_pages(string_views(paths@).subrange(0, i))
                && e.describes(#[trigger] string_views(paths@)[i]),
{
    let ghost ps = string_views(paths@);
    let mut out: Vec<Page> = Vec::new();
    let mut i: usize = 0;
    while i < paths.len()
        invariant
            ps == string_views(paths@),
            0 <= i <= paths@.len(),
            forall|k: int| 0 <= k < i ==> (#[trigger] file_type_of_path(ps[k])) is Some,
            page_views(out@) == pages_from_paths(ps).subrange(0, i as int),
        decreases paths@.len() - i,
    {
        assert(ps[i as int] == paths@[i as int]@);
        match FileType::detect(paths[i].as_str()) {
            Ok(t) => {
                let ghost before = out@;
                out.push(Page { path: paths[i].clone(), filetype: t });
                assert(page_views(out@) =~= page_views(before).push((ps[i as int], t)));
                assert(pages_from_paths(ps).subrange(0, i + 1) =~= pages_from_paths(ps).subrange(
                    0,
                    i as int,
                ).push(pages_from_paths(ps)[i as int]));
                i = i + 1;
            },
            Err(e) => {
                assert(typed_pages(ps.subrange(0, i as int)));
                return Err(e);
            },
        }
    }
    assert(pages_from_paths(ps).subrange(0, i as int) =~= pages_from_paths(ps));
    Ok(out)
}

impl Page {
    pub fn new(path: String, filetype: FileType) -> (r: Page)
        ensures
            r@ == (path@, filetype),
    {
        Page { path, filetype }
    }

    pub fn path(&self) -> (r: &str)
        ensures
            r@ == self@.0,
    {
        self.path.as_str()
    }

    pub fn filetype(&self) -> (r: FileType)
        ensures
            r == self@.1,
    {
        self.filetype
    }
}

/// A page whose path is already in the manifest was added again; holds the path.
#[derive(Debug)]
pub struct DuplicatePath(pub String);

/// Every output file of one generator run: a content directory and the pages
/// under it, in the order they were produced. No two pages share a path.
#[derive(Debug)]
pub struct Manifest {
    content_directory: String,
    pages: Vec<Page>,
}

impl View for Manifest {
    type V = (Seq<char>, Seq<(Seq<char>, FileType)>);

    closed spec fn view(&self) -> (Seq<char>, Seq<(Seq<char>, FileType)>) {
        (self.content_directory@, page_views(self.pages@))
    }
}

impl Manifest {
    /// Every manifest has pairwise distinct page paths.
    pub open spec fn wf(&self) -> bool {
        paths_unique(self@.1)
    }

    /// An empty manifest for the given content directory.
    pub fn new(content_directory: String) -> (r: Manifest)
        ensures
            r.wf(),
            r@.0 == content_directory@,
            r@.1 == Seq::<(Seq<char>, FileType)>::empty(),
    {
        let r = Manifest { content_directory, pages: Vec::new() };
        assert(r@.1 =~= Seq::<(Seq<char>, FileType)>::empty());
        r
    }

    pub fn content_directory(&self) -> (r: &str)
        ensures
            r@ == self@.0,
    {
        self.content_directory.as_str()
    }

    pub fn pages(&self) -> (r: &Vec<Page>)
        ensures
            page_views(r@) == self@.1,
    {
        &self.pages
    }

    /// The pages of the manifest, in order.
    pub fn into_pages(self) -> (r: Vec<Page>)
        ensures
            page_views(r@) == self@.1,
    {
        self.pages
    }

    /// Whether some page of the manifest has the given path.
    pub fn contains_path(&self, path: &str) -> (r: bool)
        ensures
            r == has_path(self@.1, path@),
    {
        let mut i: usize = 0;
        while i < self.pages.len()
            invariant
                0 <= i <= self.pages@.len(),
                forall|k: int| 0 <= k < i ==> self@.1[k].0 != path@,
            decreases self.pages@.len() - i,
        {
            if crate::text::str_eq(self.pages[i].path.as_str(), path) {
                assert(self@.1[i as int].0 == path@);
                return true;
            }
            i = i + 1;
        }
        false
    }

    /// Appends a page whose path is not yet in the manifest; a path that is
    /// already there is refused and leaves the manifest unchanged.
    pub fn add(&mut self, page: Page) -> (r: Result<(), DuplicatePath>)
        requires
            old(self).wf(),
        ensures
            final(self).wf(),
            final(self)@.0 == old(self)@.0,
            match r {
                Ok(()) => !has_path(old(self)@.1, page@.0) && final(self)@.1 == old(
                    self,
                )@.1.push(page@),
                Err(DuplicatePath(p)) => has_path(old(self)@.1, page@.0) && p@ == page@.0
                    && final(self)@ == old(self)@,
            },
    {
        if self.contains_path(page.path.as_str()) {
            return Err(DuplicatePath(page.path));
        }
        let ghost before = self.pages@;
        self.pages.push(page);
        assert(page_views(self.pages@) =~= page_views(before).push(page@));
        Ok(())
    }

    /// Appends pages in order, refusing the first whose path is already taken,
    /// by the manifest or by an earlier page of the list.
    pub fn extend(&mut self, pages: Vec<Page>) -> (r: Result<(), DuplicatePath>)
        requires
            old(self).wf(),
        ensures
            final(self).wf(),
            final(self)@.0 == old(self)@.0,
            r is Ok <==> paths_unique(old(self)@.1 + page_views(pages@)),
            r is Ok ==> final(self)@.1 == old(self)@.1 + page_views(pages@),
            r matches Err(DuplicatePath(p)) ==> repeated_path(
                old(self)@.1 + page_views(pages@),
                p@,
            ),
    {
        let ghost start = self@.1;
        let ghost orig = pages@;
        let ghost added = page_views(pages@);
        let mut rest = pages;
        let n: usize = rest.len();
        let mut k: usize = 0;
        while rest.len() > 0
            invariant
                self.wf(),
                self@.0 == old(self)@.0,
                orig == pages@,
                start == old(self)@.1,
                added == page_views(orig),
                added.len() == orig.len(),
                orig.len() == n,
                k + rest@.len() == orig.len(),
                rest@ == orig.subrange(k as int, orig.len() as int),
                self@.1 == start + added.subrange(0, k as int),
            decreases rest@.len(),
        {
            assert(rest@[0] == orig[k as int]);
            let page = rest.remove(0);
            assert(added[k as int] == orig[k as int]@);
            let ghost cur = self@.1;
            match self.add(page) {
                Ok(()) => {
                    assert(added.subrange(0, k + 1) == added.subrange(0, k as int).push(
                        added[k as int],
                    ));
                    k = k + 1;
                },
                Err(e) => {
                    proof {
                        let i = choose|i: int| 0 <= i < cur.len() && cur[i].0 == added[k as int].0;
                        let both = start + added;
                        assert(both[i] == cur[i]);
                        assert(both[start.len() + k] == added[k as int]);
                        assert(both[i].0 == both[start.len() + k].0);
                        assert(repeated_path(both, both[i].0));
                    }
                    return Err(e);
                },
            }
        }
        assert(added.subrange(0, k as int) == added);
        Ok(())
    }
}

} // verus!
