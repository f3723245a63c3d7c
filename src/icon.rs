use vstd::prelude::*;

use crate::file_type::{file_type_of_path, FileTypeError};
use crate::manifest::{page_views, pages_from_paths, paths_unique, typed_pages, Page};
use crate::path::{join, join_path};
use crate::text::{concat, string_views};

verus! {

/// The file that holds an icon: its identifier with the `.svg` extension.
pub open spec fn icon_file_name(id: Seq<char>) -> Seq<char> {
    id + ".svg"@
}

/// Where an icon's source file lies below the input directory.
pub open spec fn icon_local_path(input_dir: Seq<char>, id: Seq<char>) -> Seq<char> {
    join_path(join_path(input_dir, "static/icons"@), icon_file_name(id))
}

/// The root-relative URL under which an icon is served.
pub open spec fn icon_output_path(id: Seq<char>) -> Seq<char> {
    "/icons/"@ + icon_file_name(id)
}

/// The file names of a sequence of icon identifiers.
pub open spec fn icon_files(ids: Seq<Seq<char>>) -> Seq<Seq<char>> {
    ids.map_values(|id: Seq<char>| icon_file_name(id))
}

/// Every file is the file of some referenced icon.
pub open spec fn all_files_referenced(files: Seq<Seq<char>>, ids: Seq<Seq<char>>) -> bool {
    forall|i: int| 0 <= i < files.len() ==> icon_files(ids).contains(#[trigger] files[i])
}

/// The path of each icon file once copied to the output: `icons/<file>`.
pub open spec fn icon_copy_paths(files: Seq<Seq<char>>) -> Seq<Seq<char>> {
    files.map_values(|f: Seq<char>| join_path("icons"@, f))
}

/// An icon that a rendered page shows. Only the registry hands these out, once
/// it has found the icon's file.
#[derive(Debug)]
pub struct Icon {
    id: String,
}

impl View for Icon {
    type V = Seq<char>;

    closed spec fn view(&self) -> Seq<char> {
        self.id@
    }
}

impl Icon {
    /// The icon's identifier.
    pub fn id(&self) -> (r: &str)
        ensures
            r@ == self@,
    {
        self.id.as_str()
    }

    /// The name of the icon's file, `<id>.svg`.
    pub fn filename(&self) -> (r: String)
        ensures
            r@ == icon_file_name(self@),
    {
        concat(self.id.as_str(), ".svg")
    }

    /// Where the icon's source file lies: `<input_dir>/static/icons/<id>.svg`.
    pub fn local_path(&self, input_dir: &str) -> (r: String)
        ensures
            r@ == icon_local_path(input_dir@, self@),
    {
        let dir = join(input_dir, "static/icons");
        let f = self.filename();
        join(dir.as_str(), f.as_str())
    }

    /// The root-relative URL of the icon: `/icons/<id>.svg`.
    pub fn output_path(&self) -> (r: String)
        ensures
            r@ == icon_output_path(self@),
    {
        let f = self.filename();
        concat("/icons/", f.as_str())
    }
}

/// Whether icon files that no page references are tolerated.
#[derive(Clone, Copy, Debug, PartialEq, Eq, Structural)]
pub enum UnusedIconFiles {
    Allow,
    Deny,
}

/// A failed icon check.
#[derive(Debug)]
pub enum IconError {
    /// A page references an icon whose file is not there; holds the identifier.
    Missing(String),
    /// An icon file that no page references; holds the file name.
    Superfluous(String),
}

/// The icon registry while pages are rendered: the icon files that exist, and
/// the identifiers of the icons referenced so far, in order of reference.
#[derive(Debug)]
pub struct IconsUnverified {
    available: Vec<String>,
    seen: Vec<String>,
}

/// The icon registry once its check has passed.
#[derive(Debug)]
pub struct IconsVerified {
    available: Vec<String>,
    seen: Vec<String>,
}

impl View for IconsUnverified {
    type V = (Seq<Seq<char>>, Seq<Seq<char>>);

    closed spec fn view(&self) -> (Seq<Seq<char>>, Seq<Seq<char>>) {
        (string_views(self.available@), string_views(self.seen@))
    }
}

impl View for IconsVerified {
    type V = (Seq<Seq<char>>, Seq<Seq<char>>);

    closed spec fn view(&self) -> (Seq<Seq<char>>, Seq<Seq<char>>) {
        (string_views(self.available@), string_views(self.seen@))
    }
}

/// The available icon files are named once each, and every referenced icon
/// has its file among them.
pub open spec fn registry_wf(r: (Seq<Seq<char>>, Seq<Seq<char>>)) -> bool {
    &&& r.0.no_duplicates()
    &&& forall|i: int| 0 <= i < r.1.len() ==> r.0.contains(icon_file_name(#[trigger] r.1[i]))
}

proof fn lemma_icon_copy_path_injective(a: Seq<char>, b: Seq<char>)
    requires
        join_path("icons"@, a) == join_path("icons"@, b),
    ensures
        a == b,
{
    reveal_strlit("icons");
    reveal_strlit("/");
    let p = "icons"@ + "/"@;
    assert(join_path("icons"@, a) == p + a);
    assert(join_path("icons"@, b) == p + b);
    assert(a =~= (p + a).subrange(p.len() as int, (p + a).len() as int));
    assert(b =~= (p + b).subrange(p.len() as int, (p + b).len() as int));
}

/// Whether some string of the vector equals `s`.
fn contains_str(v: &Vec<String>, s: &str) -> (r: bool)
    ensures
        r == string_views(v@).contains(s@),
{
    let mut i: usize = 0;
    while i < v.len()
        invariant
            0 <= i <= v@.len(),
            forall|k: int| 0 <= k < i ==> v@[k]@ != s@,
        decreases v@.len() - i,
    {
        if crate::text::str_eq(v[i].as_str(), s) {
            assert(string_views(v@)[i as int] == s@);
            return true;
        }
        i = i + 1;
    }
    proof {
        if string_views(v@).contains(s@) {
            let k = choose|k: int| 0 <= k < v@.len() && string_views(v@)[k] == s@;
            assert(v@[k]@ == s@);
        }
    }
    false
}

impl IconsUnverified {
    /// A registry over the icon files that exist (their file names), with no
    /// icon referenced yet.
    pub fn new(available: Vec<String>) -> (r: IconsUnverified)
        requires
            string_views(available@).no_duplicates(),
        ensures
            r@.0 == string_views(available@),
            r@.1 == Seq::<Seq<char>>::empty(),
            registry_wf(r@),
    {
        let r = IconsUnverified { available, seen: Vec::new() };
        assert(r@.1 =~= Seq::<Seq<char>>::empty());
        r
    }

    /// References the icon with the given identifier: fails when its file is
    /// not among those available, else records the reference.
    pub fn reference(&mut self, id: &str) -> (r: Result<Icon, IconError>)
        requires
            registry_wf(old(self)@),
        ensures
            registry_wf(final(self)@),
            final(self)@.0 == old(self)@.0,
            r is Ok <==> old(self)@.0.contains(icon_file_name(id@)),
            match r {
                Ok(icon) => icon@ == id@ && final(self)@.1 == old(self)@.1.push(id@),
                Err(IconError::Missing(m)) => m@ == id@ && final(self)@ == old(self)@,
                Err(IconError::Superfluous(_)) => false,
            },
    {
        let file = concat(id, ".svg");
        if !contains_str(&self.available, file.as_str()) {
            return Err(IconError::Missing(String::from_str(id)));
        }
        let ghost before = self.seen@;
        self.seen.push(String::from_str(id));
        assert(string_views(self.seen@) =~= string_views(before).push(id@));
        assert forall|i: int| 0 <= i < self@.1.len() implies self@.0.contains(
            icon_file_name(#[trigger] self@.1[i]),
        ) by {
            if i < before.len() {
                assert(self@.1[i] == old(self)@.1[i]);
            }
        }
        Ok(Icon { id: String::from_str(id) })
    }

    /// Ends the render phase. With `Deny`, fails on the first available icon
    /// file that no reference names; with `Allow`, always passes.
    pub fn verify_all(self, allow_unused: UnusedIconFiles) -> (r: Result<IconsVerified, IconError>)
        requires
            registry_wf(self@),
        ensures
            r is Ok <==> (allow_unused == UnusedIconFiles::Allow || all_files_referenced(
                self@.0,
                self@.1,
            )),
            match r {
                Ok(v) => v@ == self@,
                Err(IconError::Superfluous(f)) => self@.0.contains(f@) && !icon_files(
                    self@.1,
                ).contains(f@),
                Err(IconError::Missing(_)) => false,
            },
    {
        if let UnusedIconFiles::Deny = allow_unused {
            let mut seen_files: Vec<String> = Vec::new();
            let mut j: usize = 0;
            while j < self.seen.len()
                invariant
                    0 <= j <= self.seen@.len(),
                    string_views(seen_files@) == icon_files(self@.1).subrange(0, j as int),
                decreases self.seen@.len() - j,
            {
                let ghost before = seen_files@;
                seen_files.push(concat(self.seen[j].as_str(), ".svg"));
                assert(string_views(seen_files@) =~= string_views(before).push(
                    icon_files(self@.1)[j as int],
                ));
                assert(icon_files(self@.1).subrange(0, j + 1) =~= icon_files(self@.1).subrange(
                    0,
                    j as int,
                ).push(icon_files(self@.1)[j as int]));
                j = j + 1;
            }
            assert(icon_files(self@.1).subrange(0, j as int) =~= icon_files(self@.1));
            let mut i: usize = 0;
            while i < self.available.len()
                invariant
                    0 <= i <= self.available@.len(),
                    allow_unused == UnusedIconFiles::Deny,
                    string_views(seen_files@) == icon_files(self@.1),
                    forall|k: int| 0 <= k < i ==> icon_files(self@.1).contains(#[trigger] self@.0[k]),
                decreases self.available@.len() - i,
            {
                assert(self@.0[i as int] == self.available@[i as int]@);
                if !contains_str(&seen_files, self.available[i].as_str()) {
                    assert(!icon_files(self@.1).contains(self@.0[i as int]));
                    assert(!all_files_referenced(self@.0, self@.1));
                    return Err(IconError::Superfluous(self.available[i].clone()));
                }
                i = i + 1;
            }
        }
        Ok(IconsVerified { available: self.available, seen: self.seen })
    }
}

/// Once a strict check has passed, the icon files and the referenced icons
/// match both ways: each file is `<id>.svg` for some referenced identifier
/// `id`, and each referenced identifier has its file among those available.
pub proof fn lemma_strict_check_matches(registry: IconsUnverified)
    requires
        registry_wf(registry@),
        all_files_referenced(registry@.0, registry@.1),
    ensures
        forall|f: Seq<char>| #[trigger]
            registry@.0.contains(f) ==> exists|i: int|
                0 <= i < registry@.1.len() && f == icon_file_name(#[trigger] registry@.1[i]),
        forall|i: int|
            0 <= i < registry@.1.len() ==> registry@.0.contains(
                icon_file_name(#[trigger] registry@.1[i]),
            ),
        registry@.0.to_set() == icon_files(registry@.1).to_set(),
{
    let files = registry@.0;
    let ids = registry@.1;
    assert forall|f: Seq<char>| #[trigger] files.contains(f) implies exists|i: int|
        0 <= i < ids.len() && f == icon_file_name(#[trigger] ids[i]) by {
        let k = choose|k: int| 0 <= k < files.len() && files[k] == f;
        assert(icon_files(ids).contains(files[k]));
        let i = choose|i: int| 0 <= i < ids.len() && icon_files(ids)[i] == f;
        assert(icon_files(ids)[i] == icon_file_name(ids[i]));
    }
    assert forall|f: Seq<char>| icon_files(ids).to_set().contains(f) implies files.to_set().contains(
        f,
    ) by {
        let i = choose|i: int| 0 <= i < ids.len() && icon_files(ids)[i] == f;
        assert(files.contains(icon_file_name(ids[i])));
    }
    assert forall|f: Seq<char>| files.to_set().contains(f) implies icon_files(
        ids,
    ).to_set().contains(f) by {
        let k = choose|k: int| 0 <= k < files.len() && files[k] == f;
        assert(icon_files(ids).contains(files[k]));
    }
    assert(files.to_set() =~= icon_files(ids).to_set());
}

impl IconsVerified {
    /// The icon files that exist.
    pub fn available(&self) -> (r: &Vec<String>)
        ensures
            string_views(r@) == self@.0,
    {
        &self.available
    }

    /// The pages that copying every available icon file to `icons/` adds to
    /// the manifest; fails on a file of unknown type.
    pub fn copy_all(self) -> (r: Result<Vec<Page>, FileTypeError>)
        requires
            registry_wf(self@),
        ensures
            r matches Ok(v) ==> paths_unique(page_views(v@)),
            r is Ok <==> typed_pages(icon_copy_paths(self@.0)),
            r matches Ok(v) ==> page_views(v@) == pages_from_paths(icon_copy_paths(self@.0)),
            r matches Err(e) ==> exists|i: int|
                0 <= i < self@.0.len() && e.describes(#[trigger] icon_copy_paths(self@.0)[i]),
    {
        let mut paths: Vec<String> = Vec::new();
        let mut i: usize = 0;
        while i < self.available.len()
            invariant
                0 <= i <= self.available@.len(),
                string_views(paths@) == icon_copy_paths(self@.0).subrange(0, i as int),
            decreases self.available@.len() - i,
        {
            let ghost before = paths@;
            let p = join("icons", self.available[i].as_str());
            paths.push(p);
            assert(string_views(paths@) =~= string_views(before).push(
                icon_copy_paths(self@.0)[i as int],
            ));
            assert(icon_copy_paths(self@.0).subrange(0, i + 1) =~= icon_copy_paths(
                self@.0,
            ).subrange(0, i as int).push(icon_copy_paths(self@.0)[i as int]));
            i = i + 1;
        }
        assert(icon_copy_paths(self@.0).subrange(0, i as int) =~= icon_copy_paths(self@.0));
        let r = crate::manifest::pages_for_paths(&paths);
        proof {
            if r is Ok {
                let v = r->Ok_0;
                let files = self@.0;
                let ps = icon_copy_paths(files);
                assert forall|a: int, b: int|
                    0 <= a < b < page_views(v@).len() implies page_views(v@)[a].0 != page_views(
                    v@,
                )[b].0 by {
                    assert(page_views(v@)[a].0 == pages_from_paths(ps)[a].0);
                    assert(page_views(v@)[b].0 == pages_from_paths(ps)[b].0);
                    if ps[a] == ps[b] {
                        lemma_icon_copy_path_injective(files[a], files[b]);
                    }
                }
            }
        }
        r
    }
}

} // verus!
