//! Names and texts that the synchronisation with the remote repository is
//! built from: the remote, the refs of a branch, the list of branches on
//! offer, and the path a user typed.

use crate::text::{
    chars_of, glue, has_prefix, push_char, starts_with_at, string_of, texts_of, trim_bounds,
    trimmed,
};
use vstd::prelude::*;

verus! {

/// Where the content comes from.
pub const GIT_REMOTE_URL: &'static str =
    "https://github.com/minecraftwithtwink/Twinkcraft-Modpack.git";

/// The name under which the remote is bound in the local repository.
pub const REMOTE_NAME: &'static str = "origin";

/// The prefix of every branch ref.
pub const HEADS_PREFIX: &'static str = "refs/heads/";

/// The prefix of every ref that tracks a branch of the remote.
pub const TRACKING_PREFIX: &'static str = "refs/remotes/origin/";

/// The refspec that fetches `branch` into its tracking ref, overwriting
/// whatever the tracking ref held.
pub open spec fn refspec_of(branch: Seq<char>) -> Seq<char> {
    "+refs/heads/"@ + branch + ":refs/remotes/origin/"@ + branch
}

/// Builds the refspec for fetching `branch`.
pub fn fetch_refspec(branch: &str) -> (refspec: String)
    ensures
        refspec@ == refspec_of(branch@),
{
    let mut refspec = String::from_str("+refs/heads/");
    refspec.append(branch);
    refspec.append(":refs/remotes/origin/");
    refspec.append(branch);
    refspec
}

/// The ref that tracks `branch` of the remote.
pub fn tracking_ref(branch: &str) -> (name: String)
    ensures
        name@ == TRACKING_PREFIX@ + branch@,
{
    glue(TRACKING_PREFIX, branch)
}

/// The local ref of `branch`.
pub fn local_ref(branch: &str) -> (name: String)
    ensures
        name@ == HEADS_PREFIX@ + branch@,
{
    glue(HEADS_PREFIX, branch)
}

/// The message of the commit that merges the fetched branch.
pub fn merge_message(branch: &str) -> (message: String)
    ensures
        message@ == "Merge remote-tracking branch 'origin/"@ + branch@ + "'"@,
{
    let mut message = String::from_str("Merge remote-tracking branch 'origin/");
    message.append(branch);
    message.append("'");
    message
}

/// Whether a ref names a branch.
pub open spec fn is_head(name: Seq<char>) -> bool {
    has_prefix(name, HEADS_PREFIX@)
}

/// The branch that a branch ref names: the ref without the prefix.
pub open spec fn head_name(name: Seq<char>) -> Seq<char> {
    name.subrange(HEADS_PREFIX@.len() as int, name.len() as int)
}

/// The branches among `refs`, in the order of `refs`.
pub open spec fn heads_of(refs: Seq<String>) -> Seq<Seq<char>>
    decreases refs.len(),
{
    if refs.len() == 0 {
        Seq::empty()
    } else if is_head(refs.last()@) {
        heads_of(refs.drop_last()).push(head_name(refs.last()@))
    } else {
        heads_of(refs.drop_last())
    }
}

/// Whether `a` comes before `b`, or is `b`, in the order of a dictionary
/// whose alphabet is Unicode's code points.
pub open spec fn lex_le(a: Seq<char>, b: Seq<char>) -> bool
    decreases a.len(),
{
    if a.len() == 0 {
        true
    } else if b.len() == 0 {
        false
    } else if a[0] != b[0] {
        a[0] < b[0]
    } else {
        lex_le(a.drop_first(), b.drop_first())
    }
}

/// Whether each entry comes before, or is, the entries after it.
pub open spec fn sorted(names: Seq<Seq<char>>) -> bool {
    forall|i: int, j: int| 0 <= i < j < names.len() ==> lex_le(names[i], names[j])
}

/// The characters of each row.
pub open spec fn rows_of(rows: Seq<Vec<char>>) -> Seq<Seq<char>> {
    Seq::new(rows.len(), |i: int| rows[i]@)
}

/// Of two texts, one comes before the other or is the other.
pub proof fn lemma_lex_le_total(a: Seq<char>, b: Seq<char>)
    ensures
        lex_le(a, b) || lex_le(b, a),
    decreases a.len(),
{
    if a.len() > 0 && b.len() > 0 && a[0] == b[0] {
        lemma_lex_le_total(a.drop_first(), b.drop_first());
    }
}

/// What comes before something that comes before a third comes before the
/// third.
pub proof fn lemma_lex_le_transitive(a: Seq<char>, b: Seq<char>, c: Seq<char>)
    requires
        lex_le(a, b),
        lex_le(b, c),
    ensures
        lex_le(a, c),
    decreases a.len(),
{
    if a.len() > 0 && b.len() > 0 && c.len() > 0 && a[0] == b[0] && b[0] == c[0] {
        lemma_lex_le_transitive(a.drop_first(), b.drop_first(), c.drop_first());
    }
}

/// Tests whether `a` comes before `b` or is `b`.
pub fn precedes(a: &Vec<char>, b: &Vec<char>) -> (le: bool)
    ensures
        le == lex_le(a@, b@),
{
    let mut i: usize = 0;
    assert(a@.skip(0) == a@ && b@.skip(0) == b@);
    while i < a.len() && i < b.len()
        invariant
            i <= a.len(),
            i <= b.len(),
            lex_le(a@, b@) == lex_le(a@.skip(i as int), b@.skip(i as int)),
        decreases a.len() - i,
    {
        let ghost rest_a = a@.skip(i as int);
        let ghost rest_b = b@.skip(i as int);
        assert(rest_a[0] == a@[i as int] && rest_b[0] == b@[i as int]);
        if a[i] != b[i] {
            return a[i] < b[i];
        }
        assert(rest_a.drop_first() == a@.skip(i as int + 1));
        assert(rest_b.drop_first() == b@.skip(i as int + 1));
        i += 1;
    }
    assert(a@.skip(i as int).len() == a.len() - i);
    assert(b@.skip(i as int).len() == b.len() - i);
    i >= a.len()
}

/// Puts `row` into `rows`, which are in ascending order, at its place: after
/// everything that comes before it or is it.
fn insert_in_order(rows: &mut Vec<Vec<char>>, row: Vec<char>)
    requires
        sorted(rows_of(old(rows)@)),
    ensures
        sorted(rows_of(final(rows)@)),
        rows_of(final(rows)@).to_multiset() == rows_of(old(rows)@).to_multiset().insert(row@),
{
    let mut at: usize = 0;
    while at < rows.len() && precedes(&rows[at], &row)
        invariant
            at <= rows.len(),
            forall|k: int| 0 <= k < at ==> lex_le(#[trigger] rows_of(rows@)[k], row@),
        decreases rows.len() - at,
    {
        assert(rows_of(rows@)[at as int] == rows@[at as int]@);
        at += 1;
    }
    let ghost before = rows_of(rows@);
    proof {
        if at < rows.len() {
            assert(before[at as int] == rows@[at as int]@);
            lemma_lex_le_total(before[at as int], row@);
        }
    }
    rows.insert(at, row);
    let ghost after = rows_of(rows@);
    proof {
        assert(after =~= before.insert(at as int, row@));
        vstd::seq_lib::to_multiset_insert(before, at as int, row@);
        assert forall|i: int, j: int| 0 <= i < j < after.len() implies lex_le(
            after[i],
            after[j],
        ) by {
            if j < at {
                assert(after[i] == before[i] && after[j] == before[j]);
            } else if j == at {
                assert(after[i] == before[i]);
            } else if i == at {
                assert(after[j] == before[j - 1]);
                if j - 1 > at {
                    assert(lex_le(before[at as int], before[j - 1]));
                    lemma_lex_le_transitive(row@, before[at as int], before[j - 1]);
                }
            } else if i < at {
                assert(after[i] == before[i] && after[j] == before[j - 1]);
                if i != j - 1 {
                    assert(lex_le(before[i], before[j - 1]));
                } else {
                    lemma_lex_le_transitive(before[i], row@, before[at as int]);
                }
            } else {
                assert(after[i] == before[i - 1] && after[j] == before[j - 1]);
            }
        }
    }
}

/// The branches that a remote offers, given the names of all its refs: the
/// refs under `refs/heads/`, each without that prefix, in ascending order.
pub fn branches_among(refs: &Vec<String>) -> (branches: Vec<String>)
    ensures
        texts_of(branches@).to_multiset() == heads_of(refs@).to_multiset(),
        sorted(texts_of(branches@)),
{
    let prefix = chars_of(HEADS_PREFIX);
    let mut rows: Vec<Vec<char>> = Vec::new();
    let mut i: usize = 0;
    assert(rows_of(rows@) =~= heads_of(refs@.take(0)));
    while i < refs.len()
        invariant
            i <= refs.len(),
            prefix@ == HEADS_PREFIX@,
            sorted(rows_of(rows@)),
            rows_of(rows@).to_multiset() == heads_of(refs@.take(i as int)).to_multiset(),
        decreases refs.len() - i,
    {
        let name = chars_of(refs[i].as_str());
        let ghost before = refs@.take(i as int);
        let ghost upto = refs@.take(i as int + 1);
        assert(upto.drop_last() == before);
        assert(upto.last() == refs@[i as int]);
        if starts_with_at(&name, 0, &prefix) {
            let mut branch: Vec<char> = Vec::new();
            let mut k: usize = prefix.len();
            while k < name.len()
                invariant
                    prefix.len() <= k <= name.len(),
                    branch@ == name@.subrange(prefix.len() as int, k as int),
                decreases name.len() - k,
            {
                branch.push(name[k]);
                k += 1;
                assert(name@.subrange(prefix.len() as int, k as int) == name@.subrange(
                    prefix.len() as int,
                    k as int - 1,
                ).push(name@[k as int - 1]));
            }
            proof {
                vstd::seq_lib::to_multiset_build(heads_of(before), branch@);
            }
            insert_in_order(&mut rows, branch);
        }
        i += 1;
    }
    assert(refs@.take(refs.len() as int) == refs@);
    let mut branches: Vec<String> = Vec::new();
    let mut j: usize = 0;
    while j < rows.len()
        invariant
            j <= rows.len(),
            texts_of(branches@) == rows_of(rows@).take(j as int),
        decreases rows.len() - j,
    {
        let ghost so_far = texts_of(branches@);
        let branch = string_of(&rows[j], 0, rows[j].len());
        assert(rows@[j as int]@.subrange(0, rows@[j as int]@.len() as int) == rows@[j as int]@);
        assert(branch@ == rows_of(rows@)[j as int]);
        branches.push(branch);
        j += 1;
        assert(texts_of(branches@) =~= so_far.push(branch@));
        assert(rows_of(rows@).take(j as int) =~= rows_of(rows@).take(j as int - 1).push(branch@));
    }
    assert(rows_of(rows@).take(rows.len() as int) == rows_of(rows@));
    branches
}

/// `text` without the double quotes around it, if it has both.
pub open spec fn unquoted(text: Seq<char>) -> Seq<char> {
    if text.len() >= 2 && text.first() == '"' && text.last() == '"' {
        text.subrange(1, text.len() - 1)
    } else {
        text
    }
}

/// `text` with every separator of the other platform turned into the
/// separator of this one: backslashes where `windows` holds, slashes where it
/// does not.
pub open spec fn with_separators(text: Seq<char>, windows: bool) -> Seq<char> {
    Seq::new(
        text.len(),
        |i: int|
            if windows && text[i] == '/' {
                '\\'
            } else if !windows && text[i] == '\\' {
                '/'
            } else {
                text[i]
            },
    )
}

/// The path meant by what a user typed: without white space around it,
/// without the quotes around that, and with the platform's separators.
pub open spec fn typed_path(input: Seq<char>, windows: bool) -> Seq<char> {
    with_separators(unquoted(trimmed(input)), windows)
}

/// Reads a path as a user typed or pasted it.
pub fn parse_input_path(input: &str, windows: bool) -> (path: String)
    ensures
        path@ == typed_path(input@, windows),
{
    let chars = chars_of(input);
    let (mut from, mut to) = trim_bounds(&chars);
    if to - from >= 2 && chars[from] == '"' && chars[to - 1] == '"' {
        from += 1;
        to -= 1;
    }
    let ghost inner = unquoted(trimmed(input@));
    assert(inner == chars@.subrange(from as int, to as int));
    let mut path = String::new();
    let mut i: usize = from;
    while i < to
        invariant
            from <= i <= to <= chars.len(),
            inner == chars@.subrange(from as int, to as int),
            path@ == with_separators(inner, windows).take(i - from),
        decreases to - i,
    {
        let c = chars[i];
        let out = if windows && c == '/' {
            '\\'
        } else if !windows && c == '\\' {
            '/'
        } else {
            c
        };
        push_char(&mut path, out);
        i += 1;
        assert(with_separators(inner, windows).take(i - from) == with_separators(
            inner,
            windows,
        ).take(i - from - 1).push(out));
    }
    assert(with_separators(inner, windows).take(to - from) == with_separators(inner, windows));
    path
}

} // verus!
