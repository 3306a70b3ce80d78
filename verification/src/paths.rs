//! What the library needs to know about the shape of a path.
//!
//! Paths travel through the library as text. Taking a path apart follows the
//! platform's own rules, so the two questions asked here are answered by the
//! standard library and only named on this side.

use vstd::prelude::*;

verus! {

/// The path without its last component, as the platform's path rules have
/// it; nothing for a path that ends in a root or is empty.
pub uninterp spec fn parent_of(path: Seq<char>) -> Option<Seq<char>>;

/// The last component of the path, as the platform's path rules have it;
/// nothing for a path that ends in `..` or in a root.
pub uninterp spec fn file_name_of(path: Seq<char>) -> Option<Seq<char>>;

/// The path that leads from `base` on to `rest`, as the platform's path
/// rules have it.
pub uninterp spec fn joined_path(base: Seq<char>, rest: Seq<char>) -> Seq<char>;

/// Appends `rest` to the path `base`.
///
/// Stands for `std::path::Path::join`. The result is a function of the two
/// texts alone; the contract gives it its name and claims no more.
#[verifier::external_body]
pub(crate) fn path_join(base: &str, rest: &str) -> (out: String)
    ensures
        out@ == joined_path(base@, rest@),
{
    std::path::Path::new(base).join(rest).to_string_lossy().into_owned()
}

/// The directory that holds `path`.
///
/// Stands for `std::path::Path::parent`. The result is a function of the
/// path's text alone; the contract gives it its name and claims no more.
#[verifier::external_body]
pub(crate) fn path_parent(path: &str) -> (out: Option<String>)
    ensures
        out matches Some(p) ==> parent_of(path@) == Some(p@),
        out is None ==> parent_of(path@) is None,
{
    std::path::Path::new(path).parent().map(|p| p.to_string_lossy().into_owned())
}

/// The name `path` ends in.
///
/// Stands for `std::path::Path::file_name`. The result is a function of the
/// path's text alone; the contract gives it its name and claims no more.
#[verifier::external_body]
pub(crate) fn path_file_name(path: &str) -> (out: Option<String>)
    ensures
        out matches Some(n) ==> file_name_of(path@) == Some(n@),
        out is None ==> file_name_of(path@) is None,
{
    std::path::Path::new(path).file_name().map(|n| n.to_string_lossy().into_owned())
}

/// The names that a list of paths end in, in the same order.
pub open spec fn names_of(paths: Seq<String>) -> Seq<Option<Seq<char>>> {
    Seq::new(paths.len(), |i: int| file_name_of(paths[i]@))
}

/// Whether `found` is the position of the first entry of `names` that is
/// `wanted`: nothing when there is no such entry or nothing is wanted.
pub open spec fn is_first_named(
    names: Seq<Option<Seq<char>>>,
    wanted: Option<Seq<char>>,
    found: Option<int>,
) -> bool {
    match found {
        Some(i) => {
            &&& wanted is Some
            &&& 0 <= i < names.len()
            &&& names[i] == wanted
            &&& forall|j: int| 0 <= j < i ==> names[j] != wanted
        },
        None => wanted is None || forall|j: int| 0 <= j < names.len() ==> names[j] != wanted,
    }
}

/// Whether `row` is where the cursor lands in a list whose entries bear
/// `names` when the entry called `wanted` is looked for: on the first entry
/// of that name, or on the first entry of all when there is none.
pub open spec fn is_arrival_row(
    names: Seq<Option<Seq<char>>>,
    wanted: Option<Seq<char>>,
    row: int,
) -> bool {
    is_first_named(names, wanted, Some(row)) || (row == 0 && is_first_named(names, wanted, None))
}

/// Looks for the first path in `paths` that ends in the name `wanted`.
///
/// With nothing wanted, nothing is found.
pub fn position_named(paths: &Vec<String>, wanted: &Option<String>) -> (found: Option<usize>)
    ensures
        is_first_named(
            names_of(paths@),
            match wanted {
                Some(w) => Some(w@),
                None => None,
            },
            match found {
                Some(i) => Some(i as int),
                None => None,
            },
        ),
{
    match wanted {
        None => None,
        Some(w) => {
            let mut i: usize = 0;
            while i < paths.len()
                invariant
                    i <= paths.len(),
                    *wanted == Some(*w),
                    forall|j: int| 0 <= j < i ==> names_of(paths@)[j] != Some(w@),
                decreases paths.len() - i,
            {
                let name = path_file_name(paths[i].as_str());
                let hit = match &name {
                    Some(n) => *n == *w,
                    None => false,
                };
                assert(names_of(paths@)[i as int] == file_name_of(paths@[i as int]@));
                if hit {
                    return Some(i);
                }
                i += 1;
            }
            None
        },
    }
}

} // verus!
