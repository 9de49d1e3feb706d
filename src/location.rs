//! Local paths, resolved with the platform's path rules.
use vstd::prelude::*;

verus! {

/// `file` resolved against `base` by the target platform's path rules.
pub uninterp spec fn joined_path(base: Seq<char>, file: Seq<char>) -> Seq<char>;

/// The directory that holds `p` by the target platform's path rules, if any.
pub uninterp spec fn parent_of(p: Seq<char>) -> Option<Seq<char>>;

/// Relies on `std::path::Path::join`: `file` taken relative to `base`, or
/// `file` itself where it is absolute.
#[verifier::external_body]
pub(crate) fn join_path(base: &str, file: &str) -> (r: String)
    ensures
        r@ == joined_path(base@, file@),
{
    std::path::Path::new(base).join(file).to_string_lossy().into_owned()
}

/// Relies on `std::path::Path::parent`: the path without its final
/// component; none where the path ends in a root or prefix, or is empty.
#[verifier::external_body]
pub(crate) fn parent_dir(p: &str) -> (r: Option<String>)
    ensures
        match r {
            Some(d) => parent_of(p@) == Some(d@),
            None => parent_of(p@) is None,
        },
        p@.len() == 0 ==> r is None,
{
    match std::path::Path::new(p).parent() {
        Some(d) => Some(d.to_string_lossy().into_owned()),
        None => None,
    }
}

/// A local file and the directory that holds it, if it has one.
#[derive(Clone, Debug, PartialEq, Eq)]
pub struct Target {
    pub path: String,
    pub dir: Option<String>,
}

/// Resolves `file` against the directory `base` of the configuration file.
pub fn resolve_target(base: &str, file: &str) -> (r: Target)
    ensures
        r.path@ == joined_path(base@, file@),
        match r.dir {
            Some(d) => parent_of(r.path@) == Some(d@),
            None => parent_of(r.path@) is None,
        },
{
    let path = join_path(base, file);
    let dir = parent_dir(path.as_str());
    Target { path, dir }
}

} // verus!
