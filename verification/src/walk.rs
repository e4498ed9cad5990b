//! The directory walker's filters: the depth bound and the fixed allow-list of
//! file extensions.  The walk itself (filesystem traversal) is the caller's;
//! an entry is scanned exactly when [`entry_qualifies`] says so.

use vstd::prelude::*;

verus! {

/// Deepest entry depth the walk visits, counting the root as depth zero.  A
/// regular file at most this deep is a candidate; deeper entries are excluded.
/// Not user-configurable.
pub const MAX_WALK_DEPTH: usize = 8;

/// The fixed, closed set of filename extensions that are scanned, as an exact,
/// case-sensitive match on the extension text.
pub open spec fn extension_in_allow_list(ext: Seq<char>) -> bool {
    ||| ext == "cpp"@
    ||| ext == "h"@
    ||| ext == "txt"@
    ||| ext == "html"@
    ||| ext == "php"@
    ||| ext == "c"@
    ||| ext == "css"@
    ||| ext == "json"@
    ||| ext == "py"@
    ||| ext == "js"@
}

/// Relies on `==` on string slices (`str::eq`): equality of the character
/// sequences.
#[verifier::external_body]
fn str_eq(a: &str, b: &str) -> (r: bool)
    ensures
        r == (a@ == b@),
{
    a == b
}

/// Whether a filename extension is in the fixed allow-list.
pub fn extension_allowed(ext: &str) -> (r: bool)
    ensures
        r == extension_in_allow_list(ext@),
{
    str_eq(ext, "cpp") || str_eq(ext, "h") || str_eq(ext, "txt") || str_eq(ext, "html") || str_eq(
        ext,
        "php",
    ) || str_eq(ext, "c") || str_eq(ext, "css") || str_eq(ext, "json") || str_eq(ext, "py")
        || str_eq(ext, "js")
}

/// The walker's filter over one directory entry.
pub open spec fn spec_entry_qualifies(
    is_file: bool,
    depth: int,
    extension: Option<Seq<char>>,
) -> bool {
    &&& is_file
    &&& depth <= MAX_WALK_DEPTH
    &&& match extension {
        Some(e) => extension_in_allow_list(e),
        None => false,
    }
}

/// Decides whether one entry of the walk is scanned: it must be a regular
/// file, lie within the depth bound, and carry an allowed extension.
pub fn entry_qualifies(is_file: bool, depth: usize, extension: Option<&str>) -> (r: bool)
    ensures
        r == spec_entry_qualifies(
            is_file,
            depth as int,
            match extension {
                Some(e) => Some(e@),
                None => None,
            },
        ),
{
    if !is_file {
        return false;
    }
    if depth > MAX_WALK_DEPTH {
        return false;
    }
    match extension {
        Some(e) => extension_allowed(e),
        None => false,
    }
}

} // verus!

