use vstd::prelude::*;

verus! {

/// The directory that holds the node at `p`, as `std::path::Path::parent`
/// gives it; `None` for a root or an empty path.
pub uninterp spec fn parent_of(p: Seq<char>) -> Option<Seq<char>>;

/// The path `rel` taken relative to `base`, as `std::path::Path::join` gives it.
pub uninterp spec fn joined(base: Seq<char>, rel: Seq<char>) -> Seq<char>;

/// Relies on `std::path::Path::parent`: the parent directory of `p`, if any.
#[verifier::external_body]
pub(crate) fn parent_dir(p: &String) -> (r: Option<String>)
    ensures
        match r {
            Some(d) => parent_of(p@) == Some(d@),
            None => parent_of(p@) is None,
        },
{
    match std::path::Path::new(p).parent() {
        Some(d) => Some(d.to_string_lossy().into_owned()),
        None => None,
    }
}

/// Relies on `std::path::Path::join`: `rel` taken relative to `base`.
#[verifier::external_body]
pub(crate) fn join_path(base: &String, rel: &String) -> (r: String)
    ensures
        r@ == joined(base@, rel@),
{
    std::path::Path::new(base).join(rel).to_string_lossy().into_owned()
}

/// Where the link at `p` with the stored value `value` points: the value is
/// read relative to the directory that holds the link.
pub open spec fn link_step(p: Seq<char>, value: Seq<char>) -> Option<Seq<char>> {
    match parent_of(p) {
        Some(d) => Some(joined(d, value)),
        None => None,
    }
}

/// The path that the link at `link` with the stored value `value` points at,
/// or `None` where the link has no parent directory to read it against.
pub fn resolve_link_value(link: &String, value: &String) -> (r: Option<String>)
    ensures
        match r {
            Some(t) => link_step(link@, value@) == Some(t@),
            None => link_step(link@, value@) is None,
        },
{
    match parent_dir(link) {
        Some(d) => Some(join_path(&d, value)),
        None => None,
    }
}

} // verus!
