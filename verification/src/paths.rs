use vstd::prelude::*;
use vstd::string::StringExecFns;

verus! {

/// The parent of a path as `std::path::Path::parent` finds it in the text of
/// the path; `None` where the path has none.
pub uninterp spec fn parent_of(path: Seq<char>) -> Option<Seq<char>>;

/// Whether `parent` is a beginning of `path` and shorter than it.
pub open spec fn is_proper_beginning(parent: Seq<char>, path: Seq<char>) -> bool {
    parent.len() < path.len() && parent == path.subrange(0, parent.len() as int)
}

/// Calls `std::path::Path::parent` on the text of a path and hands the
/// result out as text. Trusted: the answer depends on the text alone, nothing
/// is looked up on disk; and, from its documentation, a parent is the path
/// without its last component, so it is a beginning of the path and shorter
/// than it.
#[verifier::external_body]
pub(crate) fn parent_text(path: &str) -> (parent: Option<String>)
    ensures
        match parent {
            Some(p) => parent_of(path@) == Some(p@) && is_proper_beginning(p@, path@),
            None => parent_of(path@) is None,
        },
{
    match std::path::Path::new(path).parent() {
        Some(parent) => Some(parent.to_string_lossy().to_string()),
        None => None,
    }
}

pub open spec fn no_parent_message() -> Seq<char> {
    "No parent directory"@
}

pub open spec fn no_home_message() -> Seq<char> {
    "Could not determine home directory"@
}

/// The directory that holds `path`, taken from the text of `path` alone. A
/// path without a parent, the empty path among them, is an error.
pub fn get_parent_directory(path: &str) -> (r: Result<String, String>)
    ensures
        match parent_of(path@) {
            Some(p) => r matches Ok(q) && q@ == p,
            None => r matches Err(m) && m@ == no_parent_message(),
        },
        r matches Ok(q) ==> is_proper_beginning(q@, path@),
        path@.len() == 0 ==> r is Err,
{
    match parent_text(path) {
        Some(parent) => Ok(parent),
        None => Err(String::from_str("No parent directory")),
    }
}

/// What is reported for each answer to the question after the home
/// directory.
pub fn home_or_error(home: Option<String>) -> (r: Result<String, String>)
    ensures
        match home {
            Some(h) => r == Ok::<String, String>(h),
            None => r matches Err(m) && m@ == no_home_message(),
        },
{
    match home {
        Some(h) => Ok(h),
        None => Err(String::from_str("Could not determine home directory")),
    }
}

} // verus!
