use vstd::prelude::*;

use crate::file_type::FileType;
use crate::icon::UnusedIconFiles;
use crate::manifest::{page_views, paths_unique, repeated_path, DuplicatePath, Manifest, Page};
use crate::text::{concat, str_eq};

verus! {

/// The directory, below the output directory, that holds the rendered site.
pub const CONTENT_DIRECTORY: &'static str = "build";

/// How strictly the generator checks the icon files.
#[derive(Clone, Copy, Debug, PartialEq, Eq, Structural)]
pub enum CheckMode {
    /// Icon files that no page references are tolerated.
    Relaxed,
    /// Every icon file must be referenced by some page.
    Strict,
}

impl CheckMode {
    /// Reads a check mode from its name, `relaxed` or `strict`.
    pub fn try_from(value: String) -> (r: Result<CheckMode, String>)
        ensures
            r matches Ok(CheckMode::Relaxed) <==> value@ == "relaxed"@,
            r matches Ok(CheckMode::Strict) <==> value@ == "strict"@,
            r matches Err(m) ==> m@ == "unknown checkmode value "@ + value@,
    {
        proof {
            reveal_strlit("relaxed");
            reveal_strlit("strict");
            assert("relaxed"@[0] != "strict"@[0]);
        }
        if str_eq(value.as_str(), "relaxed") {
            Ok(CheckMode::Relaxed)
        } else if str_eq(value.as_str(), "strict") {
            Ok(CheckMode::Strict)
        } else {
            Err(concat("unknown checkmode value ", value.as_str()))
        }
    }

    /// Whether unreferenced icon files are tolerated in this mode.
    pub fn unused_icon_files(&self) -> (r: UnusedIconFiles)
        ensures
            r == match self {
                CheckMode::Relaxed => UnusedIconFiles::Allow,
                CheckMode::Strict => UnusedIconFiles::Deny,
            },
    {
        match self {
            CheckMode::Relaxed => UnusedIconFiles::Allow,
            CheckMode::Strict => UnusedIconFiles::Deny,
        }
    }
}

/// The pages of the static files that are copied as they are to the root of
/// the site.
pub open spec fn static_pages_spec() -> Seq<(Seq<char>, FileType)> {
    seq![
        ("reset.css"@, FileType::Css),
        ("style.css"@, FileType::Css),
        ("favicon.svg"@, FileType::Svg),
    ]
}

/// The pages of the static files (see `static_pages_spec`).
pub fn static_pages() -> (r: Vec<Page>)
    ensures
        page_views(r@) == static_pages_spec(),
{
    let r = vec![
        Page::new(String::from_str("reset.css"), FileType::Css),
        Page::new(String::from_str("style.css"), FileType::Css),
        Page::new(String::from_str("favicon.svg"), FileType::Svg),
    ];
    assert(page_views(r@) =~= static_pages_spec());
    r
}

/// The manifest of a generator run: the given pages, in order, under the
/// content directory `build`; fails on the first path that occurs twice.
pub fn build_manifest(pages: Vec<Page>) -> (r: Result<Manifest, DuplicatePath>)
    ensures
        r is Ok <==> paths_unique(page_views(pages@)),
        r matches Ok(m) ==> m.wf() && m@ == (CONTENT_DIRECTORY@, page_views(pages@)),
        r matches Err(DuplicatePath(p)) ==> repeated_path(page_views(pages@), p@),
{
    let mut m = Manifest::new(String::from_str(CONTENT_DIRECTORY));
    let ghost v = page_views(pages@);
    let r = m.extend(pages);
    assert(Seq::<(Seq<char>, FileType)>::empty() + v =~= v);
    match r {
        Ok(()) => Ok(m),
        Err(e) => Err(e),
    }
}

} // verus!
