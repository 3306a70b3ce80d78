//! Large files: the pointer files that stand for them in the repository, and
//! the service that hands them out.

use crate::text::{
    chars_of, has_prefix, lines_from, lines_of, parse_u64, parsed_u64, same_chars,
    starts_with_at, string_of, take_line,
};
use vstd::prelude::*;

pub mod scan;

verus! {

/// The account that holds the content repository.
pub const LFS_OWNER: &'static str = "minecraftwithtwink";

/// The content repository.
pub const LFS_REPOSITORY: &'static str = "Twinkcraft-Modpack";

/// The first line of every pointer file.
pub const POINTER_VERSION: &'static str = "version https://git-lfs.github.com/spec/v1";

/// What the second line of a pointer file begins with.
pub const POINTER_OID: &'static str = "oid sha256:";

/// What the third line of a pointer file begins with.
pub const POINTER_SIZE: &'static str = "size ";

/// A large file that is wanted: where its pointer lies in the folder, and the
/// hash and the size that the pointer gives.
#[derive(Debug, Clone, PartialEq, Eq)]
pub struct LfsFile {
    pub path: String,
    pub oid: String,
    pub size: u64,
}

/// The address of the batch endpoint of the large-file service for the
/// repository `repository` of `owner`.
pub open spec fn batch_url_of(owner: Seq<char>, repository: Seq<char>) -> Seq<char> {
    "https://github.com/"@ + owner + "/"@ + repository + ".git/info/lfs/objects/batch"@
}

/// Builds the address of the batch endpoint.
pub fn batch_url(owner: &str, repository: &str) -> (url: String)
    ensures
        url@ == batch_url_of(owner@, repository@),
{
    let mut url = String::from_str("https://github.com/");
    url.append(owner);
    url.append("/");
    url.append(repository);
    url.append(".git/info/lfs/objects/batch");
    url
}

/// What a pointer file stands for: the hash and the size it gives.
///
/// A pointer file has at least three lines: the version line, a line that
/// gives the hash after `oid sha256:`, and a line that gives the size, a
/// number, after `size `. Anything else is no pointer file.
pub open spec fn pointer_of(content: Seq<char>) -> Option<(Seq<char>, u64)> {
    let lines = lines_of(content);
    if lines.len() >= 3 && lines[0] == POINTER_VERSION@ && has_prefix(lines[1], POINTER_OID@)
        && has_prefix(lines[2], POINTER_SIZE@) {
        match parsed_u64(lines[2].subrange(POINTER_SIZE@.len() as int, lines[2].len() as int)) {
            Some(size) => Some(
                (lines[1].subrange(POINTER_OID@.len() as int, lines[1].len() as int), size),
            ),
            None => None,
        }
    } else {
        None
    }
}

/// Reads a pointer file. Returns the hash and the size it gives, or nothing
/// if the content is no pointer file.
pub fn is_lfs_pointer_file(content: &str) -> (out: Option<(String, u64)>)
    ensures
        match out {
            Some((oid, size)) => pointer_of(content@) == Some((oid@, size)),
            None => pointer_of(content@) is None,
        },
{
    let text = chars_of(content);
    if text.len() == 0 {
        return None;
    }
    let (first, first_end) = take_line(&text, 0);
    if first_end >= text.len() - 1 {
        assert(lines_from(text@, first_end as int + 1).len() == 0);
        assert(lines_of(text@).len() == 1);
        return None;
    }
    let second_at = first_end + 1;
    let (second, second_end) = take_line(&text, second_at);
    if second_end >= text.len() - 1 {
        assert(lines_from(text@, second_end as int + 1).len() == 0);
        assert(lines_from(text@, second_at as int).len() == 1);
        assert(lines_of(text@).len() == 2);
        return None;
    }
    let third_at = second_end + 1;
    let (third, third_end) = take_line(&text, third_at);
    proof {
        let lines = lines_of(text@);
        let from_third = lines_from(text@, third_at as int);
        assert(from_third.len() >= 1 && from_third[0] == third@);
        assert(lines_from(text@, second_at as int) == seq![second@] + from_third);
        assert(lines == seq![first@] + (seq![second@] + from_third));
        assert(lines.len() >= 3);
        assert(lines[0] == first@);
        assert(lines[1] == second@);
        assert(lines[2] == third@);
    }
    let version = chars_of(POINTER_VERSION);
    let oid_mark = chars_of(POINTER_OID);
    let size_mark = chars_of(POINTER_SIZE);
    if !same_chars(&first, &version) {
        return None;
    }
    if !starts_with_at(&second, 0, &oid_mark) {
        return None;
    }
    if !starts_with_at(&third, 0, &size_mark) {
        return None;
    }
    match parse_u64(&third, size_mark.len()) {
        Some(size) => Some((string_of(&second, oid_mark.len(), second.len()), size)),
        None => None,
    }
}

} // verus!
