//! The synchronisation of a folder with a branch of the remote repository,
//! as a sequence of decisions.
//!
//! A [`SyncJob`] never touches a repository, the network or the disk. It says
//! what is to be done next ([`SyncJob::action`]); whoever runs the job does
//! it and reports what came of it ([`SyncJob::advance`]); the job decides how
//! to go on and what to tell the control loop. The order of the work is:
//! open or initialise the repository, bind the remote, fetch the branch, look
//! at how the fetched commit relates to the local one, then either just
//! verify the files, or fast-forward, or merge; after that, clean the managed
//! directories, lay the default configuration over the folder, and pull in
//! the large files.

use crate::app::{GitProgress, Ratio};
use crate::git::{refspec_of, GIT_REMOTE_URL, HEADS_PREFIX, REMOTE_NAME, TRACKING_PREFIX};
use crate::lfs::{batch_url_of, LfsFile, LFS_OWNER, LFS_REPOSITORY};
use crate::text::decimal;
use vstd::prelude::*;

pub mod laws;
pub mod steps;
pub mod tables;

verus! {

/// Where a job stands: the work that has been asked for and not yet
/// reported on.
#[derive(Debug, Clone, Copy, PartialEq, Eq, Structural)]
pub enum SyncStage {
    /// Opening the repository in the folder.
    Opening,
    /// Initialising a repository in the folder, as there was none to open.
    Initializing,
    /// Pointing the remote at the upstream address.
    BindingRemote,
    /// Looking the remote up.
    FindingRemote,
    /// Fetching the branch.
    Fetching,
    /// Looking up the ref that tracks the fetched branch.
    FindingFetched,
    /// Resolving that ref to the fetched commit.
    PeelingFetched,
    /// Finding out how the fetched commit relates to the local one.
    Analyzing,
    /// Seeing whether there is a local commit at all.
    ResolvingHead,
    /// Looking up the local branch.
    FindingLocal,
    /// Creating the local branch at the fetched commit.
    CreatingLocal,
    /// Moving the local branch, and HEAD with it, to the fetched commit.
    Retargeting,
    /// Merging the fetched tree into the local one.
    MergingTrees,
    /// Committing the merged tree with the local and the fetched commit as
    /// parents.
    Committing,
    /// Forcing the working tree to what HEAD holds.
    CheckingOut,
    /// Cleaning the managed directory of the given index.
    Cleaning(usize),
    /// Seeing whether the source of the given overlay entry exists.
    ProbingSource(usize),
    /// Creating the directory that will hold the entry's destination.
    CreatingParent(usize),
    /// Seeing whether the entry's destination exists.
    ProbingDestination(usize),
    /// Removing the entry's destination.
    RemovingDestination(usize),
    /// Copying the entry, a directory, with all it holds.
    CopyingDirectory(usize),
    /// Copying the entry, a file.
    CopyingFile(usize),
    /// Getting ready to download.
    PreparingDownloads,
    /// Looking for large-file pointers in the folder.
    ScanningPointers,
    /// Asking where the large file of the given index is to be had.
    RequestingBatch(usize),
    /// Getting that large file.
    GettingObject(usize),
    /// Putting that large file in the place of its pointer.
    StoringObject(usize),
    /// Nothing is left to do; the terminal event has been sent.
    Finished,
}

/// The two commits that a merge brings together.
#[derive(Debug, Clone, Copy, PartialEq, Eq, Structural)]
pub enum Parent {
    /// The commit that HEAD stood at before the merge.
    Local,
    /// The commit that was fetched.
    Fetched,
}

/// What is to be done next.
#[derive(Debug, Clone, PartialEq, Eq)]
pub enum SyncAction {
    OpenRepository,
    InitRepository,
    SetRemoteUrl { name: String, url: String },
    FindRemote { name: String },
    /// Fetch with this refspec, reporting the transfer as it goes.
    Fetch { refspec: String },
    /// Look up the ref of this name.
    FindReference { name: String },
    /// Resolve the ref just found to a commit.
    PeelToCommit,
    /// Annotate the fetched commit and analyse the merge.
    AnalyzeMerge,
    /// Resolve HEAD.
    ResolveHead,
    /// Create (or overwrite) the ref of this name at the fetched commit.
    CreateReference { name: String, log: String },
    /// Point the ref of this name at the fetched commit and HEAD at the ref.
    Retarget { name: String, log: String },
    /// Merge the trees of the local and the fetched commit over their merge
    /// base, and say whether the result has conflicts.
    MergeTrees,
    /// Write the merged tree and commit it on HEAD, with these two commits as
    /// its parents, in this order, signed by this author.
    CommitMerge {
        message: String,
        author: String,
        email: String,
        first_parent: Parent,
        second_parent: Parent,
    },
    /// Check HEAD out, overwriting local changes.
    CheckoutHead,
    /// Check HEAD out for this directory only, overwriting local changes and
    /// removing what is not tracked.
    CleanDirectory { name: String },
    /// Say whether this path, below the overlay's root in the folder, exists.
    ProbeSource { source: String },
    /// Create the directory that holds this path of the folder, with all
    /// directories above it.
    CreateParent { destination: String },
    /// Say whether this path of the folder exists.
    ProbeDestination { destination: String },
    /// Remove this directory of the folder with all it holds.
    RemoveDestination { destination: String },
    /// Copy the directory with all it holds.
    CopyDirectory { source: String, destination: String },
    /// Copy the file, overwriting.
    CopyFile { source: String, destination: String },
    /// Set up what downloading needs.
    PrepareDownloads,
    /// List the large-file pointers among the files of the branch.
    ScanPointers { branch: String },
    /// Ask the large-file service at `url` for the object.
    RequestBatch { url: String, oid: String, size: u64 },
    /// Get what is at `href`.
    GetObject { href: String },
    /// Store what was got at this path of the folder.
    StoreObject { path: String },
}

/// What came of the work that was asked for.
#[derive(Debug, Clone, PartialEq, Eq)]
pub enum Outcome {
    /// It was done.
    Done,
    /// It failed; the text says why.
    Failed(String),
    /// The fetch goes on: so many objects of so many have arrived, in so many
    /// bytes.
    Transfer { received: usize, total: usize, bytes: usize },
    /// The merge was analysed.
    Analysis { up_to_date: bool, fast_forward: bool },
    /// The trees were merged.
    Merged { conflicts: bool },
    /// The path was looked for.
    Exists(bool),
    /// The folder was scanned for pointers.
    Pointers(Vec<LfsFile>),
    /// The large-file service answered: whether it accepted the request, its
    /// status line, and the address it gave for the object, if it gave one.
    Batch { accepted: bool, status: String, href: Option<String> },
    /// The object's address answered: whether it delivered, and its status
    /// line.
    Response { delivered: bool, status: String },
}

/// The kinds of event on a progress channel.
#[derive(Debug, Clone, Copy, PartialEq, Eq, Structural)]
pub enum Signal {
    Update,
    Success,
    Failure,
}

/// An event as its kind, its text and its ratio (full for the terminal
/// events, which carry none).
pub struct Notice {
    pub signal: Signal,
    pub text: Seq<char>,
    pub ratio: Ratio,
}

impl View for GitProgress {
    type V = Notice;

    open spec fn view(&self) -> Notice {
        match *self {
            GitProgress::Update(text, ratio) => Notice {
                signal: Signal::Update,
                text: text@,
                ratio,
            },
            GitProgress::Success(text) => Notice {
                signal: Signal::Success,
                text: text@,
                ratio: Ratio { done: 1, total: 1 },
            },
            GitProgress::Failure(text) => Notice {
                signal: Signal::Failure,
                text: text@,
                ratio: Ratio { done: 1, total: 1 },
            },
        }
    }
}

/// The events as notices.
pub open spec fn notices_of(events: Seq<GitProgress>) -> Seq<Notice> {
    Seq::new(events.len(), |i: int| events[i]@)
}

/// An update with the given text and ratio.
pub open spec fn update(text: Seq<char>, done: int, total: int) -> Notice {
    Notice {
        signal: Signal::Update,
        text,
        ratio: Ratio { done: done as u128, total: total as u128 },
    }
}

/// One synchronisation of `path` with `branch`.
#[derive(Debug)]
pub struct SyncJob {
    pub path: String,
    pub branch: String,
    pub stage: SyncStage,
    /// The large-file pointers found in the folder.
    pub pointers: Vec<LfsFile>,
    /// Where the large file being downloaded is to be had.
    pub href: String,
}

/// The number of managed directories.
pub open spec fn managed_count() -> nat {
    tables::managed_directories().len()
}

/// The number of overlay entries.
pub open spec fn overlay_count() -> nat {
    tables::overlay_manifest().len()
}

/// Whether the stage points at an entry that exists.
pub open spec fn stage_wf(stage: SyncStage, pointers: nat) -> bool {
    match stage {
        SyncStage::Cleaning(i) => i < managed_count(),
        SyncStage::ProbingSource(i) | SyncStage::CreatingParent(i) | SyncStage::ProbingDestination(
            i,
        ) | SyncStage::RemovingDestination(i) | SyncStage::CopyingDirectory(i)
        | SyncStage::CopyingFile(i) => i < overlay_count(),
        SyncStage::RequestingBatch(i) | SyncStage::GettingObject(i) | SyncStage::StoringObject(
            i,
        ) => i < pointers,
        _ => true,
    }
}

/// Whether the outcome is one that the work of this stage can have. Any work
/// can fail; a job that has finished asks for no work.
pub open spec fn outcome_fits(stage: SyncStage, outcome: Outcome) -> bool {
    !(stage is Finished) && (outcome is Failed || match stage {
        SyncStage::Fetching => outcome is Done || outcome is Transfer,
        SyncStage::Analyzing => outcome is Analysis,
        SyncStage::MergingTrees => outcome is Merged,
        SyncStage::ProbingSource(_) | SyncStage::ProbingDestination(_) => outcome is Exists,
        SyncStage::ScanningPointers => outcome is Pointers,
        SyncStage::RequestingBatch(_) => outcome is Batch,
        SyncStage::GettingObject(_) => outcome is Response,
        _ => outcome is Done,
    })
}

/// The stage that overlaying goes on with from entry `index` on: probing
/// that entry, or, past the last entry, getting ready to download.
pub open spec fn overlay_from(index: int) -> SyncStage {
    if index < overlay_count() {
        SyncStage::ProbingSource(index as usize)
    } else {
        SyncStage::PreparingDownloads
    }
}

/// The stage that cleaning goes on with from directory `index` on: cleaning
/// that directory, or, past the last, overlaying from the first entry.
pub open spec fn cleaning_from(index: int) -> SyncStage {
    if index < managed_count() {
        SyncStage::Cleaning(index as usize)
    } else {
        overlay_from(0)
    }
}

/// The stage that downloading goes on with from pointer `index` on: asking
/// for that pointer's object, or, past the last, the end.
pub open spec fn downloading_from(index: int, pointers: nat) -> SyncStage {
    if index < pointers {
        SyncStage::RequestingBatch(index as usize)
    } else {
        SyncStage::Finished
    }
}

/// The stage that follows `stage` when its work had `outcome`, in a job that
/// knows of `pointers` large-file pointers.
///
/// Any failure ends the job, with two exceptions: a repository that cannot
/// be opened is initialised, and a local branch that cannot be found is
/// created. A HEAD that cannot be resolved means that there is no local
/// commit yet, which is as good as a fast-forward. A merge with conflicts
/// ends the job.
pub open spec fn next_stage(stage: SyncStage, outcome: Outcome, pointers: nat) -> SyncStage {
    match stage {
        SyncStage::Opening => if outcome is Failed {
            SyncStage::Initializing
        } else {
            SyncStage::BindingRemote
        },
        SyncStage::FindingLocal => if outcome is Failed {
            SyncStage::CreatingLocal
        } else {
            SyncStage::Retargeting
        },
        SyncStage::ResolvingHead => if outcome is Failed {
            SyncStage::FindingLocal
        } else {
            SyncStage::MergingTrees
        },
        SyncStage::Finished => SyncStage::Finished,
        _ => if outcome is Failed {
            SyncStage::Finished
        } else {
            match stage {
                SyncStage::Initializing => SyncStage::BindingRemote,
                SyncStage::BindingRemote => SyncStage::FindingRemote,
                SyncStage::FindingRemote => SyncStage::Fetching,
                SyncStage::Fetching => if outcome is Transfer {
                    SyncStage::Fetching
                } else {
                    SyncStage::FindingFetched
                },
                SyncStage::FindingFetched => SyncStage::PeelingFetched,
                SyncStage::PeelingFetched => SyncStage::Analyzing,
                SyncStage::Analyzing => match outcome {
                    Outcome::Analysis { up_to_date, fast_forward } => if up_to_date {
                        SyncStage::CheckingOut
                    } else if fast_forward {
                        SyncStage::FindingLocal
                    } else {
                        SyncStage::ResolvingHead
                    },
                    _ => SyncStage::Finished,
                },
                SyncStage::CreatingLocal => SyncStage::Retargeting,
                SyncStage::Retargeting => SyncStage::CheckingOut,
                SyncStage::MergingTrees => match outcome {
                    Outcome::Merged { conflicts } => if conflicts {
                        SyncStage::Finished
                    } else {
                        SyncStage::Committing
                    },
                    _ => SyncStage::Finished,
                },
                SyncStage::Committing => SyncStage::CheckingOut,
                SyncStage::CheckingOut => cleaning_from(0),
                SyncStage::Cleaning(i) => cleaning_from(i + 1),
                SyncStage::ProbingSource(i) => match outcome {
                    Outcome::Exists(there) => if there {
                        SyncStage::CreatingParent(i)
                    } else {
                        overlay_from(i + 1)
                    },
                    _ => SyncStage::Finished,
                },
                SyncStage::CreatingParent(i) => if tables::overlay_manifest()[i as int]
                    .is_directory {
                    SyncStage::ProbingDestination(i)
                } else {
                    SyncStage::CopyingFile(i)
                },
                SyncStage::ProbingDestination(i) => match outcome {
                    Outcome::Exists(there) => if there {
                        SyncStage::RemovingDestination(i)
                    } else {
                        SyncStage::CopyingDirectory(i)
                    },
                    _ => SyncStage::Finished,
                },
                SyncStage::RemovingDestination(i) => SyncStage::CopyingDirectory(i),
                SyncStage::CopyingDirectory(i) | SyncStage::CopyingFile(i) => overlay_from(i + 1),
                SyncStage::PreparingDownloads => SyncStage::ScanningPointers,
                SyncStage::ScanningPointers => match outcome {
                    Outcome::Pointers(found) => downloading_from(0, found.len() as nat),
                    _ => SyncStage::Finished,
                },
                SyncStage::RequestingBatch(i) => match outcome {
                    Outcome::Batch { accepted, href, .. } => if accepted && href is Some {
                        SyncStage::GettingObject(i)
                    } else {
                        SyncStage::Finished
                    },
                    _ => SyncStage::Finished,
                },
                SyncStage::GettingObject(i) => match outcome {
                    Outcome::Response { delivered, .. } => if delivered {
                        SyncStage::StoringObject(i)
                    } else {
                        SyncStage::Finished
                    },
                    _ => SyncStage::Finished,
                },
                SyncStage::StoringObject(i) => downloading_from(i + 1, pointers),
                _ => SyncStage::Finished,
            }
        },
    }
}

/// What the control loop is told when the job starts.
pub const SETTING_UP: &'static str = "Setting up remote...";

/// What it is told when the fetch starts.
pub const FETCHING: &'static str = "Fetching from remote...";

/// What it is told when the fetch is over.
pub const ANALYZING: &'static str = "Analyzing changes...";

/// What it is told when there is nothing new.
pub const UP_TO_DATE: &'static str = "Repository up-to-date. Verifying files...";

/// What it is told when the local branch only has to catch up.
pub const FAST_FORWARD: &'static str = "Applying fast-forward update...";

/// What it is told when the two histories have to be merged.
pub const MERGING: &'static str = "Merging changes...";

/// What it is told when the cleaning starts.
pub const CLEANING: &'static str = "Cleaning managed directories...";

/// What it is told when the overlaying starts.
pub const OVERLAYING: &'static str = "Applying default configurations...";

/// What it is told when the search for pointers starts.
pub const SCANNING: &'static str = "Scanning for LFS files...";

/// What it is told when there are no pointers.
pub const NO_POINTERS: &'static str = "No LFS files found.";

/// What it is told when every large file has arrived.
pub const DOWNLOADED: &'static str = "LFS files downloaded successfully.";

/// Why a merge with conflicts ends the job.
pub const CONFLICT: &'static str = "Merge conflict detected! Please resolve manually.";

/// The name under which merges are committed.
pub const AUTHOR: &'static str = "Modpack Updater";

/// The address under which merges are committed.
pub const AUTHOR_EMAIL: &'static str = "updater@example.com";

/// What a fetch in progress is described as.
pub open spec fn transfer_text(received: nat, total: nat, bytes: nat) -> Seq<char> {
    "Downloading objects: "@ + decimal(received) + " / "@ + decimal(total) + " ("@ + decimal(
        bytes / 1048576,
    ) + " MB)"@
}

/// How far a fetch has come when `received` objects of `total` have arrived:
/// that part of the whole, never more than all of it, and nothing while the
/// total is unknown (zero).
pub open spec fn transfer_ratio(received: nat, total: nat) -> Ratio {
    if total > 0 {
        Ratio {
            done: if received <= total {
                received as u128
            } else {
                total as u128
            },
            total: total as u128,
        }
    } else {
        Ratio { done: 0, total: 1 }
    }
}

/// What the control loop is told when `count` pointers were found.
pub open spec fn found_text(count: nat) -> Seq<char> {
    "Found "@ + decimal(count) + " LFS files, downloading..."@
}

/// What it is told when the download of the large file at `path` starts.
pub open spec fn downloading_text(path: Seq<char>) -> Seq<char> {
    "Downloading LFS file: "@ + path
}

/// What it is told at the end of a job that went well.
pub open spec fn success_text(path: Seq<char>) -> Seq<char> {
    "Successfully updated and verified repository at:\n\n"@ + path
        + "\n\nPress Enter to close."@
}

/// What a failed fetch is put down to.
pub open spec fn fetch_context(branch: Seq<char>) -> Seq<char> {
    "Failed to fetch. Check network/proxy/branch name ('"@ + branch + "')."@
}

/// What a failed cleaning of `directory` is put down to.
pub open spec fn clean_context(directory: Seq<char>) -> Seq<char> {
    "Failed to clean the '"@ + directory + "' directory."@
}

/// The step that a failure at this stage is put down to, where the stage
/// names one.
pub open spec fn context_of(stage: SyncStage, branch: Seq<char>) -> Option<Seq<char>> {
    match stage {
        SyncStage::BindingRemote => Some("Failed to set remote URL"@),
        SyncStage::FindingRemote => Some("Failed to find remote 'origin'"@),
        SyncStage::Fetching => Some(fetch_context(branch)),
        SyncStage::PeelingFetched => Some("Failed to find the latest commit"@),
        SyncStage::Cleaning(i) => Some(clean_context(tables::managed_directories()[i as int]@)),
        _ => None,
    }
}

/// `cause`, put down to `context` where there is one.
pub open spec fn in_context(context: Option<Seq<char>>, cause: Seq<char>) -> Seq<char> {
    match context {
        Some(step) => step + ": "@ + cause,
        None => cause,
    }
}

/// Why the job ends without success at this step, if it does.
///
/// Work that failed ends the job with its cause, put down to the step where
/// the stage names one (not where the job knows how to go on: after a
/// repository that would not open, a local branch that was not found, and a
/// HEAD that would not resolve). A merge with conflicts ends it. So do a
/// large-file service that refuses the request or names no address, and an
/// address that does not deliver.
pub open spec fn mishap(job: SyncJob, outcome: Outcome) -> Option<Seq<char>> {
    match outcome {
        Outcome::Failed(cause) => match job.stage {
            SyncStage::Opening | SyncStage::FindingLocal | SyncStage::ResolvingHead
            | SyncStage::Finished => None,
            _ => Some(in_context(context_of(job.stage, job.branch@), cause@)),
        },
        Outcome::Merged { conflicts } => if job.stage is MergingTrees && conflicts {
            Some(CONFLICT@)
        } else {
            None
        },
        Outcome::Batch { accepted, status, href } => match job.stage {
            SyncStage::RequestingBatch(i) => if !accepted {
                Some("LFS batch request failed: "@ + status@)
            } else if href is None {
                Some("No download URL found for LFS file with OID: "@ + job.pointers[i as int].oid@)
            } else {
                None
            },
            _ => None,
        },
        Outcome::Response { delivered, status } => if job.stage is GettingObject && !delivered {
            Some("Failed to download LFS file: "@ + status@)
        } else {
            None
        },
        _ => None,
    }
}

/// How far the downloads have come when the large file of index `index` out
/// of `count` is about to be got: a tenth for the search, and the rest in
/// equal parts.
pub open spec fn download_ratio(index: nat, count: nat) -> Ratio {
    Ratio { done: (count + 9 * index) as u128, total: (10 * count) as u128 }
}

/// The update that a step sends when it goes on with the download of the
/// large file of index `index`.
pub open spec fn download_notice(pointers: Seq<LfsFile>, index: int) -> Notice {
    Notice {
        signal: Signal::Update,
        text: downloading_text(pointers[index].path@),
        ratio: download_ratio(index as nat, pointers.len()),
    }
}

/// The updates that a step sends.
pub open spec fn heralds(job: SyncJob, outcome: Outcome) -> Seq<Notice> {
    if mishap(job, outcome) is Some {
        Seq::empty()
    } else {
        match job.stage {
            SyncStage::FindingRemote => seq![update(FETCHING@, 0, 1)],
            SyncStage::Fetching => match outcome {
                Outcome::Transfer { received, total, bytes } => seq![
                    Notice {
                        signal: Signal::Update,
                        text: transfer_text(received as nat, total as nat, bytes as nat),
                        ratio: transfer_ratio(received as nat, total as nat),
                    },
                ],
                _ => seq![update(ANALYZING@, 1, 1)],
            },
            SyncStage::Analyzing => match outcome {
                Outcome::Analysis { up_to_date, fast_forward } => if up_to_date {
                    seq![update(UP_TO_DATE@, 1, 1)]
                } else if fast_forward {
                    seq![update(FAST_FORWARD@, 1, 1)]
                } else {
                    Seq::empty()
                },
                _ => Seq::empty(),
            },
            SyncStage::ResolvingHead => if outcome is Failed {
                seq![update(FAST_FORWARD@, 1, 1)]
            } else {
                seq![update(MERGING@, 1, 1)]
            },
            SyncStage::CheckingOut => seq![update(CLEANING@, 1, 1)],
            SyncStage::Cleaning(i) => if i + 1 == managed_count() {
                seq![update(OVERLAYING@, 1, 1)]
            } else {
                Seq::empty()
            },
            SyncStage::PreparingDownloads => seq![update(SCANNING@, 0, 1)],
            SyncStage::ScanningPointers => match outcome {
                Outcome::Pointers(found) => if found.len() == 0 {
                    seq![update(NO_POINTERS@, 1, 1)]
                } else {
                    seq![update(found_text(found.len() as nat), 1, 10), download_notice(found@, 0)]
                },
                _ => Seq::empty(),
            },
            SyncStage::StoringObject(i) => if i + 1 < job.pointers.len() {
                seq![download_notice(job.pointers@, i + 1)]
            } else {
                seq![update(DOWNLOADED@, 1, 1)]
            },
            _ => Seq::empty(),
        }
    }
}

/// The terminal event that a step sends, if it ends the job: a failure that
/// says why, or the success that names the folder.
pub open spec fn ending(job: SyncJob, outcome: Outcome) -> Option<Notice> {
    match mishap(job, outcome) {
        Some(reason) => Some(
            Notice {
                signal: Signal::Failure,
                text: reason,
                ratio: Ratio { done: 1, total: 1 },
            },
        ),
        None => if !(job.stage is Finished) && next_stage(
            job.stage,
            outcome,
            job.pointers.len() as nat,
        ) is Finished {
            Some(
                Notice {
                    signal: Signal::Success,
                    text: success_text(job.path@),
                    ratio: Ratio { done: 1, total: 1 },
                },
            )
        } else {
            None
        },
    }
}

/// Everything that a step sends, in order.
pub open spec fn notices(job: SyncJob, outcome: Outcome) -> Seq<Notice> {
    match ending(job, outcome) {
        Some(last) => heralds(job, outcome).push(last),
        None => heralds(job, outcome),
    }
}

/// Whether `action` is the work that the job's stage asks for.
pub open spec fn requested(job: SyncJob, action: Option<SyncAction>) -> bool {
    match job.stage {
        SyncStage::Opening => action == Some(SyncAction::OpenRepository),
        SyncStage::Initializing => action == Some(SyncAction::InitRepository),
        SyncStage::BindingRemote => action matches Some(SyncAction::SetRemoteUrl { name, url })
            && name@ == REMOTE_NAME@ && url@ == GIT_REMOTE_URL@,
        SyncStage::FindingRemote => action matches Some(SyncAction::FindRemote { name }) && name@
            == REMOTE_NAME@,
        SyncStage::Fetching => action matches Some(SyncAction::Fetch { refspec }) && refspec@
            == refspec_of(job.branch@),
        SyncStage::FindingFetched => action matches Some(SyncAction::FindReference { name })
            && name@ == TRACKING_PREFIX@ + job.branch@,
        SyncStage::PeelingFetched => action == Some(SyncAction::PeelToCommit),
        SyncStage::Analyzing => action == Some(SyncAction::AnalyzeMerge),
        SyncStage::ResolvingHead => action == Some(SyncAction::ResolveHead),
        SyncStage::FindingLocal => action matches Some(SyncAction::FindReference { name }) && name@
            == HEADS_PREFIX@ + job.branch@,
        SyncStage::CreatingLocal => action matches Some(
            SyncAction::CreateReference { name, log },
        ) && name@ == HEADS_PREFIX@ + job.branch@ && log@ == "Create local branch"@,
        SyncStage::Retargeting => action matches Some(SyncAction::Retarget { name, log }) && name@
            == HEADS_PREFIX@ + job.branch@ && log@ == "Fast-forward"@,
        SyncStage::MergingTrees => action == Some(SyncAction::MergeTrees),
        SyncStage::Committing => action matches Some(
            SyncAction::CommitMerge { message, author, email, first_parent, second_parent },
        ) && message@ == "Merge remote-tracking branch 'origin/"@ + job.branch@ + "'"@ && author@
            == AUTHOR@ && email@ == AUTHOR_EMAIL@ && first_parent == Parent::Local
            && second_parent == Parent::Fetched,
        SyncStage::CheckingOut => action == Some(SyncAction::CheckoutHead),
        SyncStage::Cleaning(i) => action matches Some(SyncAction::CleanDirectory { name }) && name@
            == tables::managed_directories()[i as int]@,
        SyncStage::ProbingSource(i) => action matches Some(SyncAction::ProbeSource { source })
            && source@ == tables::overlay_manifest()[i as int].source@,
        SyncStage::CreatingParent(i) => action matches Some(
            SyncAction::CreateParent { destination },
        ) && destination@ == tables::overlay_manifest()[i as int].destination@,
        SyncStage::ProbingDestination(i) => action matches Some(
            SyncAction::ProbeDestination { destination },
        ) && destination@ == tables::overlay_manifest()[i as int].destination@,
        SyncStage::RemovingDestination(i) => action matches Some(
            SyncAction::RemoveDestination { destination },
        ) && destination@ == tables::overlay_manifest()[i as int].destination@,
        SyncStage::CopyingDirectory(i) => action matches Some(
            SyncAction::CopyDirectory { source, destination },
        ) && source@ == tables::overlay_manifest()[i as int].source@ && destination@
            == tables::overlay_manifest()[i as int].destination@,
        SyncStage::CopyingFile(i) => action matches Some(
            SyncAction::CopyFile { source, destination },
        ) && source@ == tables::overlay_manifest()[i as int].source@ && destination@
            == tables::overlay_manifest()[i as int].destination@,
        SyncStage::PreparingDownloads => action == Some(SyncAction::PrepareDownloads),
        SyncStage::ScanningPointers => action matches Some(SyncAction::ScanPointers { branch })
            && branch == job.branch,
        SyncStage::RequestingBatch(i) => action matches Some(
            SyncAction::RequestBatch { url, oid, size },
        ) && url@ == batch_url_of(LFS_OWNER@, LFS_REPOSITORY@) && oid == job.pointers[i as int].oid
            && size == job.pointers[i as int].size,
        SyncStage::GettingObject(_) => action matches Some(SyncAction::GetObject { href }) && href
            == job.href,
        SyncStage::StoringObject(i) => action matches Some(SyncAction::StoreObject { path })
            && path == job.pointers[i as int].path,
        SyncStage::Finished => action is None,
    }
}

/// The job once its work at this stage had `outcome`: it stands at the stage
/// that follows, knows the pointers that a search found, and remembers the
/// address that the large-file service gave.
pub open spec fn step(job: SyncJob, outcome: Outcome) -> SyncJob {
    SyncJob {
        stage: next_stage(job.stage, outcome, job.pointers.len() as nat),
        path: job.path,
        branch: job.branch,
        pointers: match outcome {
            Outcome::Pointers(found) => if job.stage is ScanningPointers {
                found
            } else {
                job.pointers
            },
            _ => job.pointers,
        },
        href: match outcome {
            Outcome::Batch { accepted, href: Some(href), .. } => if job.stage is RequestingBatch
                && accepted {
                href
            } else {
                job.href
            },
            _ => job.href,
        },
    }
}

/// Whether `after` is the job once its work at this stage had `outcome`.
pub open spec fn advanced(job: SyncJob, outcome: Outcome, after: SyncJob) -> bool {
    after == step(job, outcome)
}

} // verus!
