//! The web pages and where their files are.
use vstd::prelude::*;
use crate::text::{strip_prefix_text, views};

verus! {

/// A page of the site.
#[derive(Debug, Clone, Copy, PartialEq, Eq, Structural)]
pub enum Page {
    /// The application.
    App,
    /// The documentation.
    Docs,
    /// The marketing site.
    Marketing,
}

fn starts_with(s: &str, p: &str) -> (r: bool)
    ensures
        r == p@.is_prefix_of(s@),
{
    strip_prefix_text(s, p).is_some()
}

/// The page served at `path`: the application under `/app`, the
/// documentation under `/docs`, the marketing site elsewhere.
pub fn page_for_path(path: &str) -> (p: Page)
    ensures
        p == if "/app"@.is_prefix_of(path@) {
            Page::App
        } else if "/docs"@.is_prefix_of(path@) {
            Page::Docs
        } else {
            Page::Marketing
        },
{
    if starts_with(path, "/app") {
        Page::App
    } else if starts_with(path, "/docs") {
        Page::Docs
    } else {
        Page::Marketing
    }
}

/// The places looked at for the static files, in order.
pub open spec fn static_dir_candidates() -> Seq<Seq<char>> {
    seq!["crates/server/static"@, "static"@, "../static"@]
}

/// The places looked at for the static files, in order.
pub fn static_dir_candidate_paths() -> (v: Vec<String>)
    ensures
        views(v@) == static_dir_candidates(),
{
    let mut v: Vec<String> = Vec::new();
    v.push("crates/server/static".to_owned());
    v.push("static".to_owned());
    v.push("../static".to_owned());
    assert(views(v@) =~= static_dir_candidates());
    v
}

/// The directory of the static files, given whether each candidate exists:
/// the first candidate that exists, else `static`.
pub open spec fn static_dir_choice(found: Seq<bool>) -> Seq<char> {
    if found[0] {
        "crates/server/static"@
    } else if found[1] {
        "static"@
    } else if found[2] {
        "../static"@
    } else {
        "static"@
    }
}

/// The directory of the static files, given whether each of the three
/// candidates exists (see `static_dir_choice`).
pub fn static_dir_for(found: &Vec<bool>) -> (d: String)
    requires
        found@.len() == 3,
    ensures
        d@ == static_dir_choice(found@),
{
    if found[0] {
        "crates/server/static".to_owned()
    } else if found[1] {
        "static".to_owned()
    } else if found[2] {
        "../static".to_owned()
    } else {
        "static".to_owned()
    }
}

} // verus!
