use vstd::prelude::*;

use crate::file_type::FileType;
use crate::manifest::Page;
use crate::path::{join, join_path};

verus! {

/// A page of the site that is rendered from the site's own data into
/// `<directory>/index.html`.
pub trait Render {
    /// The directory of the page below the content directory.
    spec fn directory_spec() -> Seq<char>;

    fn directory() -> (r: &'static str)
        ensures
            r@ == Self::directory_spec(),
    ;

    /// The manifest entry of the rendered page.
    fn page() -> (r: Page)
        ensures
            r@ == (join_path(Self::directory_spec(), "index.html"@), FileType::Html),
    {
        Page::new(join(Self::directory(), "index.html"), FileType::Html)
    }
}

/// The landing page, at the root of the site.
pub struct LandingPage;

/// The page of skills and technologies.
pub struct SkillsPage;

/// The page of projects.
pub struct ProjectsPage;

/// The page about the site owner.
pub struct AboutPage;

impl Render for LandingPage {
    open spec fn directory_spec() -> Seq<char> {
        ""@
    }

    fn directory() -> (r: &'static str) {
        ""
    }
}

impl Render for SkillsPage {
    open spec fn directory_spec() -> Seq<char> {
        "skills"@
    }

    fn directory() -> (r: &'static str) {
        "skills"
    }
}

impl Render for ProjectsPage {
    open spec fn directory_spec() -> Seq<char> {
        "projects"@
    }

    fn directory() -> (r: &'static str) {
        "projects"
    }
}

impl Render for AboutPage {
    open spec fn directory_spec() -> Seq<char> {
        "about"@
    }

    fn directory() -> (r: &'static str) {
        "about"
    }
}

} // verus!
