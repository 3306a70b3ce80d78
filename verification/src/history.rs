//! The list of folders used before, as it is kept between runs: one path per
//! line, pruned on loading to the folders that are still there.

use crate::paths::{joined_path, path_join};
use crate::text::{
    chars_of, line_at, line_end, lines_from, lines_of, push_char, string_of, take_line, texts_of,
};
use vstd::prelude::*;

verus! {

/// The name of the file that holds the history, in the configuration
/// directory.
pub const HISTORY_FILE: &'static str = "history.txt";

/// The name of the file whose presence says that the guided tour has been
/// taken, in the configuration directory.
pub const TUTORIAL_FLAG_FILE: &'static str = "tutorial.flag";

/// Where the history is kept, given the configuration directory.
pub fn get_history_path(config_dir: &str) -> (path: String)
    ensures
        path@ == joined_path(config_dir@, HISTORY_FILE@),
{
    path_join(config_dir, HISTORY_FILE)
}

/// Where the record of the guided tour is kept, given the configuration
/// directory.
pub fn get_tutorial_flag_path(config_dir: &str) -> (path: String)
    ensures
        path@ == joined_path(config_dir@, TUTORIAL_FLAG_FILE@),
{
    path_join(config_dir, TUTORIAL_FLAG_FILE)
}

/// Whether the guided tour is due: the history is empty (or could not be
/// loaded), and there is no record (or none to be found) of the tour having
/// been taken.
pub open spec fn tour_is_due(history: Option<Seq<String>>, flag_exists: Option<bool>) -> bool {
    let history_is_empty = match history {
        Some(entries) => entries.len() == 0,
        None => true,
    };
    let recorded = match flag_exists {
        Some(there) => there,
        None => false,
    };
    history_is_empty && !recorded
}

/// Says whether to start the guided tour, given the history as loaded
/// (nothing, if loading failed) and whether the record of the tour exists
/// (nothing, if that could not be found out).
pub fn should_start_tutorial(
    history: Option<&Vec<String>>,
    flag_exists: Option<bool>,
) -> (due: bool)
    ensures
        due == tour_is_due(
            match history {
                Some(entries) => Some(entries@),
                None => None,
            },
            flag_exists,
        ),
{
    let history_is_empty = match history {
        Some(entries) => entries.len() == 0,
        None => true,
    };
    let recorded = match flag_exists {
        Some(there) => there,
        None => false,
    };
    history_is_empty && !recorded
}

/// The lines that hold something, in their order.
pub open spec fn without_empty(lines: Seq<Seq<char>>) -> Seq<Seq<char>>
    decreases lines.len(),
{
    if lines.len() == 0 {
        Seq::empty()
    } else if lines[0].len() > 0 {
        seq![lines[0]] + without_empty(lines.drop_first())
    } else {
        without_empty(lines.drop_first())
    }
}

/// The history that a history file holds: its lines, without the empty ones.
pub open spec fn history_in(content: Seq<char>) -> Seq<Seq<char>> {
    without_empty(lines_of(content))
}

/// Reads the entries out of the content of a history file. Whether they
/// still exist is not looked at here; see [`keep_existing`].
pub fn entries_of(content: &str) -> (entries: Vec<String>)
    ensures
        texts_of(entries@) == history_in(content@),
{
    let text = chars_of(content);
    let mut entries: Vec<String> = Vec::new();
    let mut from: usize = 0;
    assert(texts_of(entries@) =~= Seq::<Seq<char>>::empty());
    while from < text.len()
        invariant
            from <= text.len(),
            text@ == content@,
            texts_of(entries@) + without_empty(lines_from(text@, from as int)) == history_in(
                content@,
            ),
        decreases text.len() - from,
    {
        let (line, end) = take_line(&text, from);
        let ghost before = texts_of(entries@);
        let ghost rest = lines_from(text@, from as int);
        let ghost tail = if end < text.len() {
            lines_from(text@, end as int + 1)
        } else {
            Seq::<Seq<char>>::empty()
        };
        proof {
            assert(rest =~= seq![line@] + tail);
            assert(rest.drop_first() =~= tail);
            assert(rest[0] == line@);
        }
        if line.len() > 0 {
            entries.push(string_of(&line, 0, line.len()));
            proof {
                assert(line@.subrange(0, line@.len() as int) =~= line@);
                assert(texts_of(entries@) =~= before.push(line@));
                assert(without_empty(rest) == seq![line@] + without_empty(tail));
                assert(before.push(line@) + without_empty(tail) =~= before + (seq![line@]
                    + without_empty(tail)));
            }
        } else {
            proof {
                assert(without_empty(rest) == without_empty(tail));
            }
        }
        if end >= text.len() {
            proof {
                assert(without_empty(tail) =~= Seq::<Seq<char>>::empty());
                assert(texts_of(entries@) + Seq::<Seq<char>>::empty() =~= texts_of(entries@));
            }
            return entries;
        }
        from = end + 1;
    }
    proof {
        assert(without_empty(lines_from(text@, from as int)) =~= Seq::<Seq<char>>::empty());
        assert(texts_of(entries@) + Seq::<Seq<char>>::empty() =~= texts_of(entries@));
    }
    entries
}

/// The entries one per line: each but the last is followed by a line feed.
pub open spec fn rendered(entries: Seq<Seq<char>>) -> Seq<char>
    decreases entries.len(),
{
    if entries.len() == 0 {
        Seq::empty()
    } else if entries.len() == 1 {
        entries[0]
    } else {
        rendered(entries.drop_last()) + seq!['\n'] + entries.last()
    }
}

/// Writes the history as the content of a history file.
pub fn render(entries: &Vec<String>) -> (content: String)
    ensures
        content@ == rendered(texts_of(entries@)),
{
    let mut content = String::new();
    let mut i: usize = 0;
    while i < entries.len()
        invariant
            i <= entries.len(),
            content@ == rendered(texts_of(entries@).take(i as int)),
        decreases entries.len() - i,
    {
        let ghost upto = texts_of(entries@).take(i as int + 1);
        assert(upto.drop_last() =~= texts_of(entries@).take(i as int));
        assert(upto.last() == entries@[i as int]@);
        if i > 0 {
            push_char(&mut content, '\n');
            assert(content@ =~= rendered(upto.drop_last()) + seq!['\n']);
        } else {
            assert(rendered(upto) == entries@[0]@);
            assert(content@ + entries@[0]@ =~= entries@[0]@);
        }
        content.append(entries[i].as_str());
        i += 1;
    }
    assert(texts_of(entries@).take(entries.len() as int) =~= texts_of(entries@));
    content
}

/// The entries whose flag is set, in their order.
pub open spec fn kept(entries: Seq<String>, flags: Seq<bool>) -> Seq<String>
    decreases entries.len(),
{
    if entries.len() == 0 {
        Seq::empty()
    } else if flags.len() > 0 && flags.last() {
        kept(entries.drop_last(), flags.drop_last()).push(entries.last())
    } else {
        kept(entries.drop_last(), flags.drop_last())
    }
}

/// Every entry that is kept was there, with its flag set.
pub proof fn lemma_kept_were_flagged(entries: Seq<String>, flags: Seq<bool>)
    requires
        entries.len() == flags.len(),
    ensures
        forall|k: int|
            0 <= k < kept(entries, flags).len() ==> exists|i: int|
                0 <= i < entries.len() && flags[i] && entries[i] == #[trigger] kept(
                    entries,
                    flags,
                )[k],
        kept(entries, flags).len() <= entries.len(),
    decreases entries.len(),
{
    if entries.len() > 0 {
        let shorter = kept(entries.drop_last(), flags.drop_last());
        lemma_kept_were_flagged(entries.drop_last(), flags.drop_last());
        assert forall|k: int| 0 <= k < kept(entries, flags).len() implies exists|i: int|
            0 <= i < entries.len() && flags[i] && entries[i] == #[trigger] kept(
                entries,
                flags,
            )[k] by {
            if k < shorter.len() {
                let i = choose|i: int|
                    0 <= i < entries.drop_last().len() && flags.drop_last()[i]
                        && entries.drop_last()[i] == shorter[k];
                assert(flags[i] && entries[i] == kept(entries, flags)[k]);
            } else {
                let i = entries.len() - 1;
                assert(flags[i] && entries[i] == kept(entries, flags)[k]);
            }
        }
    }
}

/// Drops from `entries` whatever is no longer a directory: `is_directory`
/// says of each entry, in order, whether it still is one. What is left keeps
/// its order.
///
/// Nothing comes out that no longer exists as a directory: every entry of
/// the result is an entry of `entries` whose flag is set.
pub fn keep_existing(entries: &Vec<String>, is_directory: &Vec<bool>) -> (out: Vec<String>)
    requires
        entries.len() == is_directory.len(),
    ensures
        out@ == kept(entries@, is_directory@),
        forall|k: int|
            0 <= k < out.len() ==> exists|i: int|
                0 <= i < entries.len() && is_directory[i] && entries[i] == #[trigger] out[k],
{
    let mut out: Vec<String> = Vec::new();
    let mut i: usize = 0;
    while i < entries.len()
        invariant
            i <= entries.len(),
            entries.len() == is_directory.len(),
            out@ == kept(entries@.take(i as int), is_directory@.take(i as int)),
        decreases entries.len() - i,
    {
        let ghost upto = entries@.take(i as int + 1);
        let ghost flags = is_directory@.take(i as int + 1);
        assert(upto.drop_last() == entries@.take(i as int));
        assert(flags.drop_last() == is_directory@.take(i as int));
        if is_directory[i] {
            out.push(entries[i].clone());
        }
        i += 1;
    }
    proof {
        assert(entries@.take(entries.len() as int) == entries@);
        assert(is_directory@.take(entries.len() as int) == is_directory@);
        lemma_kept_were_flagged(entries@, is_directory@);
    }
    out
}

/// Whether a path can stand on a line of its own: it is not empty, holds no
/// line feed, and does not end in a carriage return.
pub open spec fn is_plain(path: Seq<char>) -> bool {
    &&& path.len() > 0
    &&& forall|i: int| 0 <= i < path.len() ==> path[i] != '\n'
    &&& path.last() != '\r'
}

/// Whether every entry can stand on a line of its own.
pub open spec fn all_plain(entries: Seq<Seq<char>>) -> bool {
    forall|i: int| 0 <= i < entries.len() ==> is_plain(#[trigger] entries[i])
}

/// The entries one per line, told from the first entry on.
spec fn rendered_onward(entries: Seq<Seq<char>>) -> Seq<char>
    decreases entries.len(),
{
    if entries.len() == 0 {
        Seq::empty()
    } else if entries.len() == 1 {
        entries[0]
    } else {
        entries[0] + seq!['\n'] + rendered_onward(entries.drop_first())
    }
}

proof fn lemma_rendered_onward(entries: Seq<Seq<char>>)
    ensures
        rendered(entries) == rendered_onward(entries),
    decreases entries.len(),
{
    if entries.len() >= 2 {
        let front = entries.drop_last();
        let back = entries.drop_first();
        lemma_rendered_onward(front);
        lemma_rendered_onward(back);
        if entries.len() == 2 {
            assert(front =~= seq![entries[0]]);
            assert(back =~= seq![entries[1]]);
        } else {
            let middle = front.drop_first();
            assert(middle =~= back.drop_last());
            lemma_rendered_onward(middle);
            assert(rendered(back) == rendered(middle) + seq!['\n'] + entries.last());
            assert(rendered_onward(front) == entries[0] + seq!['\n'] + rendered_onward(middle));
            assert(rendered(entries) =~= entries[0] + seq!['\n'] + rendered(back));
        }
    }
}

/// A line that holds no line feed ends where the text after it begins.
proof fn lemma_line_end_of_first(first: Seq<char>, rest: Seq<char>, from: int)
    requires
        0 <= from <= first.len(),
        forall|i: int| 0 <= i < first.len() ==> first[i] != '\n',
    ensures
        line_end(first + seq!['\n'] + rest, from) == first.len(),
        line_end(first, from) == first.len(),
    decreases first.len() - from,
{
    let text = first + seq!['\n'] + rest;
    if from < first.len() {
        assert(text[from] == first[from]);
        lemma_line_end_of_first(first, rest, from + 1);
    } else {
        assert(text[from] == '\n');
    }
}

/// Where a line ends does not depend on what comes before it.
proof fn lemma_line_end_shift(before: Seq<char>, text: Seq<char>, from: int)
    requires
        0 <= from <= text.len(),
    ensures
        line_end(before + text, before.len() + from) == before.len() + line_end(text, from),
    decreases text.len() - from,
{
    let whole = before + text;
    if from < text.len() {
        assert(whole[before.len() + from] == text[from]);
        if text[from] != '\n' {
            lemma_line_end_shift(before, text, from + 1);
        }
    }
}

/// The lines of a text do not depend on what comes before them.
proof fn lemma_lines_shift(before: Seq<char>, text: Seq<char>, from: int)
    requires
        0 <= from <= text.len(),
    ensures
        lines_from(before + text, before.len() + from) == lines_from(text, from),
    decreases text.len() - from,
{
    let whole = before + text;
    let shift = before.len() as int;
    if from < text.len() {
        lemma_line_end_shift(before, text, from);
        crate::text::lemma_line_end_bounds(text, from);
        let end = line_end(text, from);
        assert(whole.subrange(shift + from, shift + end) =~= text.subrange(from, end));
        if from < end {
            assert(whole[shift + end - 1] == text[end - 1]);
            assert(whole.subrange(shift + from, shift + end - 1) =~= text.subrange(from, end - 1));
        }
        assert(line_at(whole, shift + from) == line_at(text, from));
        if end < text.len() {
            lemma_lines_shift(before, text, end + 1);
        }
    }
}

/// What is written is what is read. A history whose entries can each stand
/// on a line of their own reads back, entry by entry, from the content that
/// it was written as.
pub proof fn lemma_history_round_trip(entries: Seq<Seq<char>>)
    requires
        all_plain(entries),
    ensures
        history_in(rendered(entries)) == entries,
    decreases entries.len(),
{
    lemma_rendered_onward(entries);
    lemma_lines_of_rendered(entries);
    lemma_without_empty_keeps_plain(entries);
}

proof fn lemma_lines_of_rendered(entries: Seq<Seq<char>>)
    requires
        all_plain(entries),
    ensures
        lines_of(rendered_onward(entries)) == entries,
    decreases entries.len(),
{
    if entries.len() == 0 {
        assert(lines_of(rendered_onward(entries)) =~= entries);
    } else {
        let first = entries[0];
        assert(is_plain(first));
        let rest = entries.drop_first();
        assert(all_plain(rest)) by {
            assert forall|i: int| 0 <= i < rest.len() implies is_plain(#[trigger] rest[i]) by {
                assert(rest[i] == entries[i + 1]);
            }
        }
        if entries.len() == 1 {
            lemma_line_end_of_first(first, Seq::empty(), 0);
            assert(first.subrange(0, first.len() as int) =~= first);
            assert(lines_of(first) =~= seq![first]);
            assert(entries =~= seq![first]);
        } else {
            let tail = rendered_onward(rest);
            let head = first + seq!['\n'];
            let text = first + seq!['\n'] + tail;
            lemma_lines_of_rendered(rest);
            lemma_line_end_of_first(first, tail, 0);
            assert(text.subrange(0, first.len() as int) =~= first);
            assert(text[first.len() - 1] == first.last());
            assert(line_at(text, 0) == first);
            assert(tail.len() > 0) by {
                assert(is_plain(rest[0]));
                if rest.len() == 1 {
                } else {
                    assert(tail == rest[0] + seq!['\n'] + rendered_onward(rest.drop_first()));
                }
            }
            assert(text =~= head + tail);
            lemma_lines_shift(head, tail, 0);
            assert(lines_of(text) == seq![first] + lines_of(tail));
            assert(entries =~= seq![first] + rest);
        }
    }
}

proof fn lemma_without_empty_keeps_plain(entries: Seq<Seq<char>>)
    requires
        all_plain(entries),
    ensures
        without_empty(entries) == entries,
    decreases entries.len(),
{
    if entries.len() > 0 {
        let rest = entries.drop_first();
        assert(is_plain(entries[0]));
        assert(all_plain(rest)) by {
            assert forall|i: int| 0 <= i < rest.len() implies is_plain(#[trigger] rest[i]) by {
                assert(rest[i] == entries[i + 1]);
            }
        }
        lemma_without_empty_keeps_plain(rest);
        assert(entries =~= seq![entries[0]] + rest);
    } else {
        assert(without_empty(entries) =~= entries);
    }
}

} // verus!
