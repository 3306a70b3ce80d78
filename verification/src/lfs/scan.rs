//! The search for pointer files, as a sequence of decisions.
//!
//! The files of a branch are listed directory by directory by the hosting
//! service; the content of a file is read from the folder. A [`PointerScan`]
//! does neither. It says what it wants to know next; whoever runs it finds
//! that out and tells it; it decides where to look next and keeps what it
//! has found. It walks the tree depth first, in the order of the listings.

use crate::lfs::{is_lfs_pointer_file, pointer_of, LfsFile};
use vstd::prelude::*;

verus! {

/// What an entry of a listing is.
#[derive(Debug, Clone, Copy, PartialEq, Eq, Structural)]
pub enum RemoteKind {
    File,
    Directory,
    Other,
}

/// The kind that the hosting service's word for it stands for: `file` is a
/// file, `dir` a directory, and anything else is passed over.
pub open spec fn kind_of(word: Seq<char>) -> RemoteKind {
    if word == "file"@ {
        RemoteKind::File
    } else if word == "dir"@ {
        RemoteKind::Directory
    } else {
        RemoteKind::Other
    }
}

/// Reads the hosting service's word for the kind of an entry.
pub fn classify(word: &String) -> (kind: RemoteKind)
    ensures
        kind == kind_of(word@),
{
    let file = String::from_str("file");
    let dir = String::from_str("dir");
    if *word == file {
        RemoteKind::File
    } else if *word == dir {
        RemoteKind::Directory
    } else {
        RemoteKind::Other
    }
}

/// An entry of a listing: its name and its kind.
#[derive(Debug, Clone, PartialEq, Eq)]
pub struct RemoteItem {
    pub name: String,
    pub kind: RemoteKind,
}

/// The path of the entry called `name` in the directory `dir`, from the root
/// of the repository: the name alone at the root, otherwise the directory, a
/// slash and the name.
pub open spec fn item_path_of(dir: Seq<char>, name: Seq<char>) -> Seq<char> {
    if dir.len() == 0 {
        name
    } else {
        dir + "/"@ + name
    }
}

/// Builds the path of an entry.
pub fn item_path(dir: &str, name: &str) -> (path: String)
    ensures
        path@ == item_path_of(dir@, name@),
{
    if dir.is_empty() {
        String::from_str(name)
    } else {
        let mut path = String::from_str(dir);
        path.append("/");
        path.append(name);
        path
    }
}

/// A directory that is being walked: its path, its entries, and how many of
/// them have been dealt with.
#[derive(Debug, Clone, PartialEq, Eq)]
pub struct Frame {
    pub dir: String,
    pub items: Vec<RemoteItem>,
    pub next: usize,
}

/// What the search wants to know.
#[derive(Debug, Clone, PartialEq, Eq)]
pub enum Wanted {
    /// The entries of this directory of the branch.
    Listing(String),
    /// The content of this file of the folder, if it is there and is text.
    Content(String),
    /// Nothing: the search is over.
    Nothing,
}

/// A search for pointer files.
#[derive(Debug)]
pub struct PointerScan {
    /// The directories that are being walked, the innermost last.
    pub frames: Vec<Frame>,
    /// What is wanted now.
    pub wanted: Wanted,
    /// The pointers found so far, in the order in which they were found.
    pub found: Vec<LfsFile>,
}

/// Whether each directory that is being walked has dealt with no more
/// entries than it has.
pub open spec fn frames_wf(frames: Seq<Frame>) -> bool {
    forall|i: int| 0 <= i < frames.len() ==> (#[trigger] frames[i]).next <= frames[i].items.len()
}

/// The position of the first entry at or after `from` that is a file or a
/// directory; the number of entries when there is none.
pub open spec fn next_relevant(items: Seq<RemoteItem>, from: int) -> int
    decreases items.len() - from,
{
    if 0 <= from < items.len() && items[from].kind is Other {
        next_relevant(items, from + 1)
    } else {
        from
    }
}

/// Where the walk stands next: the directories being walked, once every
/// directory that has nothing left but entries that are neither file nor
/// directory is left, with the next file or directory taken off the
/// innermost of those that remain.
pub open spec fn settled(frames: Seq<Frame>) -> Seq<Frame>
    decreases frames.len(),
{
    if frames.len() == 0 {
        frames
    } else {
        let top = frames.last();
        let at = next_relevant(top.items@, top.next as int);
        if at >= top.items.len() {
            settled(frames.drop_last())
        } else {
            frames.drop_last().push(Frame { next: (at + 1) as usize, ..top })
        }
    }
}

/// The entry that the walk has just taken off the innermost directory, if
/// any directory is being walked.
pub open spec fn taken(frames: Seq<Frame>) -> Option<(Seq<char>, RemoteItem)> {
    if frames.len() == 0 {
        None
    } else {
        let top = frames.last();
        Some((top.dir@, top.items[top.next - 1]))
    }
}

/// Whether `wanted` is what the walk wants to know once it stands at
/// `frames`: the listing of the directory, or the content of the file, that
/// it has just taken off; nothing when it has left every directory.
pub open spec fn wants(frames: Seq<Frame>, wanted: Wanted) -> bool {
    match taken(frames) {
        None => wanted is Nothing,
        Some((dir, item)) => match item.kind {
            RemoteKind::Directory => wanted matches Wanted::Listing(path) && path@ == item_path_of(
                dir,
                item.name@,
            ),
            _ => wanted matches Wanted::Content(path) && path@ == item_path_of(dir, item.name@),
        },
    }
}

fn is_other(item: &RemoteItem) -> (other: bool)
    ensures
        other == (item.kind is Other),
{
    match item.kind {
        RemoteKind::Other => true,
        _ => false,
    }
}

impl PointerScan {
    /// No directory has dealt with more entries than it has.
    pub open spec fn wf(&self) -> bool {
        frames_wf(self.frames@)
    }

    /// A search that has found nothing yet and wants the listing of the
    /// root of the repository.
    pub fn begin() -> (scan: PointerScan)
        ensures
            scan.wf(),
            scan.frames@.len() == 0,
            scan.found@.len() == 0,
            scan.wanted matches Wanted::Listing(path) && path@.len() == 0,
    {
        PointerScan {
            frames: Vec::new(),
            wanted: Wanted::Listing(String::new()),
            found: Vec::new(),
        }
    }

    /// Moves on to the next file or directory.
    fn settle(&mut self)
        requires
            old(self).wf(),
        ensures
            final(self).wf(),
            final(self).frames@ == settled(old(self).frames@),
            wants(final(self).frames@, final(self).wanted),
            final(self).found == old(self).found,
    {
        loop
            invariant_except_break
                self.wf(),
                settled(self.frames@) == settled(old(self).frames@),
                self.found == old(self).found,
            ensures
                self.wf(),
                self.frames@ == settled(old(self).frames@),
                wants(self.frames@, self.wanted),
                self.found == old(self).found,
            decreases self.frames@.len(),
        {
            let depth = self.frames.len();
            if depth == 0 {
                self.wanted = Wanted::Nothing;
                break;
            }
            let ghost before = self.frames@;
            let mut frame = self.frames.pop().unwrap();
            assert(frame == before.last());
            assert(self.frames@ == before.drop_last());
            let mut at: usize = frame.next;
            while at < frame.items.len() && is_other(&frame.items[at])
                invariant
                    frame.next <= at <= frame.items.len(),
                    next_relevant(frame.items@, at as int) == next_relevant(
                        frame.items@,
                        frame.next as int,
                    ),
                decreases frame.items.len() - at,
            {
                at += 1;
            }
            if at < frame.items.len() {
                let path = item_path(frame.dir.as_str(), frame.items[at].name.as_str());
                let kind = frame.items[at].kind;
                frame.next = at + 1;
                self.frames.push(frame);
                assert(frames_wf(self.frames@)) by {
                    assert forall|i: int| 0 <= i < self.frames@.len() implies (
                    #[trigger] self.frames@[i]).next <= self.frames@[i].items.len() by {
                        if i < before.len() - 1 {
                            assert(self.frames@[i] == before[i]);
                        }
                    }
                }
                match kind {
                    RemoteKind::Directory => {
                        self.wanted = Wanted::Listing(path);
                    },
                    _ => {
                        self.wanted = Wanted::Content(path);
                    },
                }
                break;
            }
            assert(frames_wf(self.frames@)) by {
                assert forall|i: int| 0 <= i < self.frames@.len() implies (
                #[trigger] self.frames@[i]).next <= self.frames@[i].items.len() by {
                    assert(self.frames@[i] == before[i]);
                }
            }
        }
    }

    /// Takes the entries of the directory that was asked for, and moves on
    /// into it.
    pub fn on_listing(&mut self, items: Vec<RemoteItem>)
        requires
            old(self).wf(),
            old(self).wanted is Listing,
        ensures
            final(self).wf(),
            old(self).wanted matches Wanted::Listing(dir) && final(self).frames@ == settled(
                old(self).frames@.push(Frame { dir, items, next: 0 }),
            ),
            wants(final(self).frames@, final(self).wanted),
            final(self).found == old(self).found,
    {
        let mut wanted = Wanted::Nothing;
        std::mem::swap(&mut wanted, &mut self.wanted);
        match wanted {
            Wanted::Listing(dir) => {
                let ghost before = self.frames@;
                self.frames.push(Frame { dir, items, next: 0 });
                assert(frames_wf(self.frames@)) by {
                    assert forall|i: int| 0 <= i < self.frames@.len() implies (
                    #[trigger] self.frames@[i]).next <= self.frames@[i].items.len() by {
                        if i < before.len() {
                            assert(self.frames@[i] == before[i]);
                        }
                    }
                }
                self.settle();
            },
            _ => {},
        }
    }

    /// Takes the content of the file that was asked for (nothing, if the
    /// folder has no such file or it is no text), keeps it if it is a
    /// pointer, and moves on.
    pub fn on_content(&mut self, content: Option<String>)
        requires
            old(self).wf(),
            old(self).wanted is Content,
        ensures
            final(self).wf(),
            final(self).frames@ == settled(old(self).frames@),
            wants(final(self).frames@, final(self).wanted),
            old(self).wanted matches Wanted::Content(path) && match content {
                Some(text) => match pointer_of(text@) {
                    Some((oid, size)) => {
                        &&& final(self).found@.len() == old(self).found@.len() + 1
                        &&& final(self).found@.drop_last() == old(self).found@
                        &&& final(self).found@.last().path == path
                        &&& final(self).found@.last().oid@ == oid
                        &&& final(self).found@.last().size == size
                    },
                    None => final(self).found == old(self).found,
                },
                None => final(self).found == old(self).found,
            },
    {
        let mut wanted = Wanted::Nothing;
        std::mem::swap(&mut wanted, &mut self.wanted);
        match wanted {
            Wanted::Content(path) => {
                match content {
                    Some(text) => match is_lfs_pointer_file(text.as_str()) {
                        Some((oid, size)) => {
                            self.found.push(LfsFile { path, oid, size });
                        },
                        None => {},
                    },
                    None => {},
                }
                self.settle();
            },
            _ => {},
        }
    }
}

} // verus!
