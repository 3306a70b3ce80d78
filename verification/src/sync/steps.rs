//! The steps of a synchronisation job: what it asks for, and what it makes
//! of the answers.

use crate::app::{GitProgress, Ratio};
use crate::git::{
    fetch_refspec, local_ref, merge_message, tracking_ref, GIT_REMOTE_URL, REMOTE_NAME,
};
use crate::lfs::{batch_url, LfsFile, LFS_OWNER, LFS_REPOSITORY};
use crate::sync::tables::{
    managed_directory, overlay_entry, lemma_table_sizes, MANAGED_COUNT, OVERLAY_COUNT,
};
use crate::sync::{
    advanced, context_of, download_notice, download_ratio, notices, notices_of,
    outcome_fits, overlay_count, overlay_from, requested, stage_wf, success_text, transfer_ratio,
    transfer_text, update, Notice, Outcome, Parent, Signal, SyncAction, SyncJob, SyncStage,
    ANALYZING, AUTHOR, AUTHOR_EMAIL, CLEANING, CONFLICT, DOWNLOADED, FAST_FORWARD, FETCHING,
    MERGING, NO_POINTERS, OVERLAYING, SCANNING, SETTING_UP, UP_TO_DATE,
};
use crate::text::{glue, decimal_string};
use vstd::prelude::*;

verus! {

fn note(text: String, ratio: Ratio) -> (event: GitProgress)
    ensures
        event@ == (Notice { signal: Signal::Update, text: text@, ratio }),
{
    GitProgress::Update(text, ratio)
}

fn say(text: &str, ratio: Ratio) -> (event: GitProgress)
    ensures
        event@ == (Notice { signal: Signal::Update, text: text@, ratio }),
{
    GitProgress::Update(String::from_str(text), ratio)
}

fn one(event: GitProgress) -> (events: Vec<GitProgress>)
    ensures
        notices_of(events@) == seq![event@],
{
    let mut events: Vec<GitProgress> = Vec::new();
    events.push(event);
    assert(notices_of(events@) =~= seq![event@]);
    events
}

fn none() -> (events: Vec<GitProgress>)
    ensures
        notices_of(events@) == Seq::<Notice>::empty(),
{
    let events: Vec<GitProgress> = Vec::new();
    assert(notices_of(events@) =~= Seq::<Notice>::empty());
    events
}

fn and_then(events: Vec<GitProgress>, last: GitProgress) -> (out: Vec<GitProgress>)
    ensures
        notices_of(out@) == notices_of(events@).push(last@),
{
    let mut out = events;
    out.push(last);
    assert(notices_of(out@) =~= notices_of(events@).push(last@));
    out
}

fn download_progress(index: usize, count: usize) -> (ratio: Ratio)
    requires
        index < count,
    ensures
        ratio == download_ratio(index as nat, count as nat),
        ratio.in_unit_range(),
{
    let n: u128 = count as u128;
    let i: u128 = index as u128;
    Ratio { done: n + 9 * i, total: 10 * n }
}

fn transfer_note(received: usize, total: usize, bytes: usize) -> (event: GitProgress)
    ensures
        event@ == (Notice {
            signal: Signal::Update,
            text: transfer_text(received as nat, total as nat, bytes as nat),
            ratio: transfer_ratio(received as nat, total as nat),
        }),
{
    let mut text = String::from_str("Downloading objects: ");
    text.append(decimal_string(received as u64).as_str());
    text.append(" / ");
    text.append(decimal_string(total as u64).as_str());
    text.append(" (");
    text.append(decimal_string((bytes / 1048576) as u64).as_str());
    text.append(" MB)");
    let arrived = if received <= total {
        received
    } else {
        total
    };
    note(text, Ratio::of(arrived as u128, total as u128))
}

fn download_note(pointers: &Vec<LfsFile>, index: usize) -> (event: GitProgress)
    requires
        index < pointers.len(),
    ensures
        event@ == download_notice(pointers@, index as int),
{
    let text = glue("Downloading LFS file: ", pointers[index].path.as_str());
    note(text, download_progress(index, pointers.len()))
}

impl SyncJob {
    /// The stage points at an entry that exists.
    pub open spec fn wf(&self) -> bool {
        stage_wf(self.stage, self.pointers.len() as nat)
    }

    /// Tests whether the job is well formed.
    pub fn is_well_formed(&self) -> (ok: bool)
        ensures
            ok == self.wf(),
    {
        proof {
            lemma_table_sizes();
        }
        match self.stage {
            SyncStage::Cleaning(i) => i < MANAGED_COUNT,
            SyncStage::ProbingSource(i) | SyncStage::CreatingParent(i)
            | SyncStage::ProbingDestination(i) | SyncStage::RemovingDestination(i)
            | SyncStage::CopyingDirectory(i) | SyncStage::CopyingFile(i) => i < OVERLAY_COUNT,
            SyncStage::RequestingBatch(i) | SyncStage::GettingObject(i)
            | SyncStage::StoringObject(i) => i < self.pointers.len(),
            _ => true,
        }
    }

    /// Starts a job that synchronises `path` with `branch`. Returns the job,
    /// which asks for the repository to be opened, and the first thing to
    /// tell the control loop.
    pub fn begin(path: String, branch: String) -> (out: (SyncJob, Vec<GitProgress>))
        ensures
            out.0.wf(),
            out.0.stage == SyncStage::Opening,
            out.0.path == path,
            out.0.branch == branch,
            out.0.pointers@.len() == 0,
            out.0.href@.len() == 0,
            notices_of(out.1@) == seq![update(SETTING_UP@, 0, 1)],
    {
        let job = SyncJob {
            path,
            branch,
            stage: SyncStage::Opening,
            pointers: Vec::new(),
            href: String::new(),
        };
        (job, one(say(SETTING_UP, Ratio::none())))
    }

    /// Whether the job has sent its terminal event.
    pub fn is_finished(&self) -> (finished: bool)
        ensures
            finished == (self.stage is Finished),
    {
        match self.stage {
            SyncStage::Finished => true,
            _ => false,
        }
    }

    /// Whether `outcome` is one that the work asked for can have.
    pub fn accepts(&self, outcome: &Outcome) -> (fits: bool)
        ensures
            fits == outcome_fits(self.stage, *outcome),
    {
        match outcome {
            Outcome::Failed(_) => !self.is_finished(),
            Outcome::Done => match self.stage {
                SyncStage::Analyzing | SyncStage::MergingTrees | SyncStage::ProbingSource(_)
                | SyncStage::ProbingDestination(_) | SyncStage::ScanningPointers
                | SyncStage::RequestingBatch(_) | SyncStage::GettingObject(_)
                | SyncStage::Finished => false,
                _ => true,
            },
            Outcome::Transfer { .. } => match self.stage {
                SyncStage::Fetching => true,
                _ => false,
            },
            Outcome::Analysis { .. } => match self.stage {
                SyncStage::Analyzing => true,
                _ => false,
            },
            Outcome::Merged { .. } => match self.stage {
                SyncStage::MergingTrees => true,
                _ => false,
            },
            Outcome::Exists(_) => match self.stage {
                SyncStage::ProbingSource(_) | SyncStage::ProbingDestination(_) => true,
                _ => false,
            },
            Outcome::Pointers(_) => match self.stage {
                SyncStage::ScanningPointers => true,
                _ => false,
            },
            Outcome::Batch { .. } => match self.stage {
                SyncStage::RequestingBatch(_) => true,
                _ => false,
            },
            Outcome::Response { .. } => match self.stage {
                SyncStage::GettingObject(_) => true,
                _ => false,
            },
        }
    }

    fn overlay_action(&self) -> (action: Option<SyncAction>)
        requires
            self.wf(),
            self.stage is ProbingSource || self.stage is CreatingParent || self.stage
                is ProbingDestination || self.stage is RemovingDestination || self.stage
                is CopyingDirectory || self.stage is CopyingFile,
        ensures
            requested(*self, action),
    {
        match self.stage {
            SyncStage::ProbingSource(i) => Some(
                SyncAction::ProbeSource { source: String::from_str(overlay_entry(i).source) },
            ),
            SyncStage::CreatingParent(i) => Some(
                SyncAction::CreateParent {
                    destination: String::from_str(overlay_entry(i).destination),
                },
            ),
            SyncStage::ProbingDestination(i) => Some(
                SyncAction::ProbeDestination {
                    destination: String::from_str(overlay_entry(i).destination),
                },
            ),
            SyncStage::RemovingDestination(i) => Some(
                SyncAction::RemoveDestination {
                    destination: String::from_str(overlay_entry(i).destination),
                },
            ),
            SyncStage::CopyingDirectory(i) => Some(
                SyncAction::CopyDirectory {
                    source: String::from_str(overlay_entry(i).source),
                    destination: String::from_str(overlay_entry(i).destination),
                },
            ),
            SyncStage::CopyingFile(i) => Some(
                SyncAction::CopyFile {
                    source: String::from_str(overlay_entry(i).source),
                    destination: String::from_str(overlay_entry(i).destination),
                },
            ),
            _ => None,
        }
    }

    fn download_action(&self) -> (action: Option<SyncAction>)
        requires
            self.wf(),
            self.stage is PreparingDownloads || self.stage is ScanningPointers || self.stage
                is RequestingBatch || self.stage is GettingObject || self.stage is StoringObject,
        ensures
            requested(*self, action),
    {
        match self.stage {
            SyncStage::PreparingDownloads => Some(SyncAction::PrepareDownloads),
            SyncStage::ScanningPointers => Some(
                SyncAction::ScanPointers { branch: self.branch.clone() },
            ),
            SyncStage::RequestingBatch(i) => Some(
                SyncAction::RequestBatch {
                    url: batch_url(LFS_OWNER, LFS_REPOSITORY),
                    oid: self.pointers[i].oid.clone(),
                    size: self.pointers[i].size,
                },
            ),
            SyncStage::GettingObject(_) => Some(SyncAction::GetObject { href: self.href.clone() }),
            SyncStage::StoringObject(i) => Some(
                SyncAction::StoreObject { path: self.pointers[i].path.clone() },
            ),
            _ => None,
        }
    }

    fn repository_action(&self) -> (action: Option<SyncAction>)
        requires
            self.wf(),
            !(self.stage is ProbingSource || self.stage is CreatingParent || self.stage
                is ProbingDestination || self.stage is RemovingDestination || self.stage
                is CopyingDirectory || self.stage is CopyingFile),
            !(self.stage is PreparingDownloads || self.stage is ScanningPointers || self.stage
                is RequestingBatch || self.stage is GettingObject || self.stage is StoringObject),
        ensures
            requested(*self, action),
    {
        let branch = self.branch.as_str();
        match self.stage {
            SyncStage::Opening => Some(SyncAction::OpenRepository),
            SyncStage::Initializing => Some(SyncAction::InitRepository),
            SyncStage::BindingRemote => Some(
                SyncAction::SetRemoteUrl {
                    name: String::from_str(REMOTE_NAME),
                    url: String::from_str(GIT_REMOTE_URL),
                },
            ),
            SyncStage::FindingRemote => Some(
                SyncAction::FindRemote { name: String::from_str(REMOTE_NAME) },
            ),
            SyncStage::Fetching => Some(SyncAction::Fetch { refspec: fetch_refspec(branch) }),
            SyncStage::FindingFetched => Some(
                SyncAction::FindReference { name: tracking_ref(branch) },
            ),
            SyncStage::PeelingFetched => Some(SyncAction::PeelToCommit),
            SyncStage::Analyzing => Some(SyncAction::AnalyzeMerge),
            SyncStage::ResolvingHead => Some(SyncAction::ResolveHead),
            SyncStage::FindingLocal => Some(SyncAction::FindReference { name: local_ref(branch) }),
            SyncStage::CreatingLocal => Some(
                SyncAction::CreateReference {
                    name: local_ref(branch),
                    log: String::from_str("Create local branch"),
                },
            ),
            SyncStage::Retargeting => Some(
                SyncAction::Retarget {
                    name: local_ref(branch),
                    log: String::from_str("Fast-forward"),
                },
            ),
            SyncStage::MergingTrees => Some(SyncAction::MergeTrees),
            SyncStage::Committing => Some(
                SyncAction::CommitMerge {
                    message: merge_message(branch),
                    author: String::from_str(AUTHOR),
                    email: String::from_str(AUTHOR_EMAIL),
                    first_parent: Parent::Local,
                    second_parent: Parent::Fetched,
                },
            ),
            SyncStage::CheckingOut => Some(SyncAction::CheckoutHead),
            SyncStage::Cleaning(i) => Some(
                SyncAction::CleanDirectory { name: String::from_str(managed_directory(i)) },
            ),
            _ => None,
        }
    }

    /// The work that is to be done next; nothing once the job has finished.
    pub fn action(&self) -> (action: Option<SyncAction>)
        requires
            self.wf(),
        ensures
            requested(*self, action),
            action is None <==> self.stage is Finished,
    {
        match self.stage {
            SyncStage::ProbingSource(_) | SyncStage::CreatingParent(_)
            | SyncStage::ProbingDestination(_) | SyncStage::RemovingDestination(_)
            | SyncStage::CopyingDirectory(_) | SyncStage::CopyingFile(_) => self.overlay_action(),
            SyncStage::PreparingDownloads | SyncStage::ScanningPointers
            | SyncStage::RequestingBatch(_) | SyncStage::GettingObject(_)
            | SyncStage::StoringObject(_) => self.download_action(),
            _ => self.repository_action(),
        }
    }

    fn context(&self) -> (context: Option<String>)
        requires
            self.wf(),
        ensures
            match context {
                Some(step) => context_of(self.stage, self.branch@) == Some(step@),
                None => context_of(self.stage, self.branch@) is None,
            },
    {
        match self.stage {
            SyncStage::BindingRemote => Some(String::from_str("Failed to set remote URL")),
            SyncStage::FindingRemote => Some(String::from_str("Failed to find remote 'origin'")),
            SyncStage::Fetching => {
                let mut step = String::from_str(
                    "Failed to fetch. Check network/proxy/branch name ('",
                );
                step.append(self.branch.as_str());
                step.append("').");
                Some(step)
            },
            SyncStage::PeelingFetched => Some(
                String::from_str("Failed to find the latest commit"),
            ),
            SyncStage::Cleaning(i) => {
                let mut step = String::from_str("Failed to clean the '");
                step.append(managed_directory(i));
                step.append("' directory.");
                Some(step)
            },
            _ => None,
        }
    }

    /// Ends the job for `reason`.
    fn give_up(&mut self, reason: String) -> (events: Vec<GitProgress>)
        ensures
            final(self).stage == SyncStage::Finished,
            final(self).path == old(self).path,
            final(self).branch == old(self).branch,
            final(self).pointers == old(self).pointers,
            final(self).href == old(self).href,
            notices_of(events@) == seq![
                Notice {
                    signal: Signal::Failure,
                    text: reason@,
                    ratio: Ratio { done: 1, total: 1 },
                },
            ],
    {
        self.stage = SyncStage::Finished;
        one(GitProgress::Failure(reason))
    }

    /// Ends the job well, after `events`.
    fn complete(&mut self, events: Vec<GitProgress>) -> (out: Vec<GitProgress>)
        ensures
            final(self).stage == SyncStage::Finished,
            final(self).path == old(self).path,
            final(self).branch == old(self).branch,
            final(self).pointers == old(self).pointers,
            final(self).href == old(self).href,
            notices_of(out@) == notices_of(events@).push(
                Notice {
                    signal: Signal::Success,
                    text: success_text(old(self).path@),
                    ratio: Ratio { done: 1, total: 1 },
                },
            ),
    {
        self.stage = SyncStage::Finished;
        let mut text = String::from_str("Successfully updated and verified repository at:\n\n");
        text.append(self.path.as_str());
        text.append("\n\nPress Enter to close.");
        and_then(events, GitProgress::Success(text))
    }

    fn on_failure(&mut self, cause: String) -> (events: Vec<GitProgress>)
        requires
            old(self).wf(),
            !(old(self).stage is Finished),
        ensures
            advanced(*old(self), Outcome::Failed(cause), *final(self)),
            final(self).wf(),
            notices_of(events@) == notices(*old(self), Outcome::Failed(cause)),
    {
        match self.stage {
            SyncStage::Opening => {
                self.stage = SyncStage::Initializing;
                none()
            },
            SyncStage::FindingLocal => {
                self.stage = SyncStage::CreatingLocal;
                none()
            },
            SyncStage::ResolvingHead => {
                self.stage = SyncStage::FindingLocal;
                one(say(FAST_FORWARD, Ratio::all()))
            },
            _ => {
                let reason = match self.context() {
                    Some(step) => {
                        let mut reason = step;
                        reason.append(": ");
                        reason.append(cause.as_str());
                        reason
                    },
                    None => cause,
                };
                let events = self.give_up(reason);
                assert(notices_of(events@) =~= notices(*old(self), Outcome::Failed(cause)));
                events
            },
        }
    }

    fn on_repository(&mut self, outcome: Outcome) -> (events: Vec<GitProgress>)
        requires
            old(self).wf(),
            outcome_fits(old(self).stage, outcome),
            !(outcome is Failed),
            old(self).stage is Opening || old(self).stage is Initializing || old(self).stage
                is BindingRemote || old(self).stage is FindingRemote || old(self).stage
                is Fetching || old(self).stage is FindingFetched || old(self).stage
                is PeelingFetched,
        ensures
            advanced(*old(self), outcome, *final(self)),
            final(self).wf(),
            notices_of(events@) == notices(*old(self), outcome),
    {
        match self.stage {
            SyncStage::Opening | SyncStage::Initializing => {
                self.stage = SyncStage::BindingRemote;
                none()
            },
            SyncStage::BindingRemote => {
                self.stage = SyncStage::FindingRemote;
                none()
            },
            SyncStage::FindingRemote => {
                self.stage = SyncStage::Fetching;
                one(say(FETCHING, Ratio::none()))
            },
            SyncStage::Fetching => match outcome {
                Outcome::Transfer { received, total, bytes } => one(
                    transfer_note(received, total, bytes),
                ),
                _ => {
                    self.stage = SyncStage::FindingFetched;
                    one(say(ANALYZING, Ratio::all()))
                },
            },
            SyncStage::FindingFetched => {
                self.stage = SyncStage::PeelingFetched;
                none()
            },
            _ => {
                self.stage = SyncStage::Analyzing;
                none()
            },
        }
    }

    fn on_merge(&mut self, outcome: Outcome) -> (events: Vec<GitProgress>)
        requires
            old(self).wf(),
            outcome_fits(old(self).stage, outcome),
            !(outcome is Failed),
            old(self).stage is Analyzing || old(self).stage is ResolvingHead || old(self).stage
                is FindingLocal || old(self).stage is CreatingLocal || old(self).stage
                is Retargeting || old(self).stage is MergingTrees || old(self).stage
                is Committing || old(self).stage is CheckingOut,
        ensures
            advanced(*old(self), outcome, *final(self)),
            final(self).wf(),
            notices_of(events@) == notices(*old(self), outcome),
    {
        proof {
            lemma_table_sizes();
        }
        match self.stage {
            SyncStage::Analyzing => match outcome {
                Outcome::Analysis { up_to_date, fast_forward } => {
                    if up_to_date {
                        self.stage = SyncStage::CheckingOut;
                        one(say(UP_TO_DATE, Ratio::all()))
                    } else if fast_forward {
                        self.stage = SyncStage::FindingLocal;
                        one(say(FAST_FORWARD, Ratio::all()))
                    } else {
                        self.stage = SyncStage::ResolvingHead;
                        none()
                    }
                },
                _ => none(),
            },
            SyncStage::ResolvingHead => {
                self.stage = SyncStage::MergingTrees;
                one(say(MERGING, Ratio::all()))
            },
            SyncStage::FindingLocal | SyncStage::CreatingLocal => {
                self.stage = SyncStage::Retargeting;
                none()
            },
            SyncStage::MergingTrees => match outcome {
                Outcome::Merged { conflicts } => {
                    if conflicts {
                        let events = self.give_up(String::from_str(CONFLICT));
                        assert(notices_of(events@) =~= notices(*old(self), outcome));
                        events
                    } else {
                        self.stage = SyncStage::Committing;
                        none()
                    }
                },
                _ => none(),
            },
            SyncStage::Retargeting | SyncStage::Committing => {
                self.stage = SyncStage::CheckingOut;
                none()
            },
            _ => {
                self.stage = SyncStage::Cleaning(0);
                one(say(CLEANING, Ratio::all()))
            },
        }
    }

    fn on_cleaning(&mut self, outcome: Outcome) -> (events: Vec<GitProgress>)
        requires
            old(self).wf(),
            outcome_fits(old(self).stage, outcome),
            !(outcome is Failed),
            old(self).stage is Cleaning,
        ensures
            advanced(*old(self), outcome, *final(self)),
            final(self).wf(),
            notices_of(events@) == notices(*old(self), outcome),
    {
        proof {
            lemma_table_sizes();
        }
        match self.stage {
            SyncStage::Cleaning(i) => {
                if i + 1 < MANAGED_COUNT {
                    self.stage = SyncStage::Cleaning(i + 1);
                    none()
                } else {
                    self.stage = SyncStage::ProbingSource(0);
                    one(say(OVERLAYING, Ratio::all()))
                }
            },
            _ => none(),
        }
    }

    /// Goes on with the overlay entry after `index`, or, past the last, with
    /// the downloads.
    fn next_entry(&mut self, index: usize)
        requires
            index < overlay_count(),
        ensures
            final(self).stage == overlay_from(index + 1),
            final(self).path == old(self).path,
            final(self).branch == old(self).branch,
            final(self).pointers == old(self).pointers,
            final(self).href == old(self).href,
            final(self).wf(),
    {
        proof {
            lemma_table_sizes();
        }
        if index + 1 < OVERLAY_COUNT {
            self.stage = SyncStage::ProbingSource(index + 1);
        } else {
            self.stage = SyncStage::PreparingDownloads;
        }
    }

    fn on_overlay(&mut self, outcome: Outcome) -> (events: Vec<GitProgress>)
        requires
            old(self).wf(),
            outcome_fits(old(self).stage, outcome),
            !(outcome is Failed),
            old(self).stage is ProbingSource || old(self).stage is CreatingParent || old(
                self,
            ).stage is ProbingDestination || old(self).stage is RemovingDestination || old(
                self,
            ).stage is CopyingDirectory || old(self).stage is CopyingFile,
        ensures
            advanced(*old(self), outcome, *final(self)),
            final(self).wf(),
            notices_of(events@) == notices(*old(self), outcome),
    {
        match self.stage {
            SyncStage::ProbingSource(i) => match outcome {
                Outcome::Exists(there) => {
                    if there {
                        self.stage = SyncStage::CreatingParent(i);
                    } else {
                        self.next_entry(i);
                    }
                },
                _ => {},
            },
            SyncStage::CreatingParent(i) => {
                if overlay_entry(i).is_directory {
                    self.stage = SyncStage::ProbingDestination(i);
                } else {
                    self.stage = SyncStage::CopyingFile(i);
                }
            },
            SyncStage::ProbingDestination(i) => match outcome {
                Outcome::Exists(there) => {
                    if there {
                        self.stage = SyncStage::RemovingDestination(i);
                    } else {
                        self.stage = SyncStage::CopyingDirectory(i);
                    }
                },
                _ => {},
            },
            SyncStage::RemovingDestination(i) => {
                self.stage = SyncStage::CopyingDirectory(i);
            },
            SyncStage::CopyingDirectory(i) => {
                self.next_entry(i);
            },
            SyncStage::CopyingFile(i) => {
                self.next_entry(i);
            },
            _ => {},
        }
        none()
    }

    fn on_pointers(&mut self, found: Vec<LfsFile>) -> (events: Vec<GitProgress>)
        requires
            old(self).wf(),
            old(self).stage is ScanningPointers,
        ensures
            advanced(*old(self), Outcome::Pointers(found), *final(self)),
            final(self).wf(),
            notices_of(events@) == notices(*old(self), Outcome::Pointers(found)),
    {
        let count = found.len();
        self.pointers = found;
        if count == 0 {
            let events = self.complete(one(say(NO_POINTERS, Ratio::all())));
            assert(notices_of(events@) =~= notices(*old(self), Outcome::Pointers(found)));
            events
        } else {
            self.stage = SyncStage::RequestingBatch(0);
            let mut text = String::from_str("Found ");
            text.append(decimal_string(count as u64).as_str());
            text.append(" LFS files, downloading...");
            let events = and_then(
                one(note(text, Ratio { done: 1, total: 10 })),
                download_note(&self.pointers, 0),
            );
            assert(notices_of(events@) =~= notices(*old(self), Outcome::Pointers(found)));
            events
        }
    }

    fn on_batch(
        &mut self,
        index: usize,
        accepted: bool,
        status: String,
        href: Option<String>,
    ) -> (events: Vec<GitProgress>)
        requires
            old(self).wf(),
            old(self).stage == SyncStage::RequestingBatch(index),
        ensures
            advanced(*old(self), Outcome::Batch { accepted, status, href }, *final(self)),
            final(self).wf(),
            notices_of(events@) == notices(*old(self), Outcome::Batch { accepted, status, href }),
    {
        let ghost outcome = Outcome::Batch { accepted, status, href };
        if !accepted {
            let events = self.give_up(glue("LFS batch request failed: ", status.as_str()));
            assert(notices_of(events@) =~= notices(*old(self), outcome));
            events
        } else {
            match href {
                Some(address) => {
                    self.href = address;
                    self.stage = SyncStage::GettingObject(index);
                    none()
                },
                None => {
                    let events = self.give_up(
                        glue(
                            "No download URL found for LFS file with OID: ",
                            self.pointers[index].oid.as_str(),
                        ),
                    );
                    assert(notices_of(events@) =~= notices(*old(self), outcome));
                    events
                },
            }
        }
    }

    fn on_stored(&mut self, index: usize) -> (events: Vec<GitProgress>)
        requires
            old(self).wf(),
            old(self).stage == SyncStage::StoringObject(index),
        ensures
            advanced(*old(self), Outcome::Done, *final(self)),
            final(self).wf(),
            notices_of(events@) == notices(*old(self), Outcome::Done),
    {
        if index + 1 < self.pointers.len() {
            self.stage = SyncStage::RequestingBatch(index + 1);
            one(download_note(&self.pointers, index + 1))
        } else {
            let events = self.complete(one(say(DOWNLOADED, Ratio::all())));
            assert(notices_of(events@) =~= notices(*old(self), Outcome::Done));
            events
        }
    }

    fn on_downloads(&mut self, outcome: Outcome) -> (events: Vec<GitProgress>)
        requires
            old(self).wf(),
            outcome_fits(old(self).stage, outcome),
            !(outcome is Failed),
            old(self).stage is PreparingDownloads || old(self).stage is ScanningPointers || old(
                self,
            ).stage is RequestingBatch || old(self).stage is GettingObject || old(self).stage
                is StoringObject,
        ensures
            advanced(*old(self), outcome, *final(self)),
            final(self).wf(),
            notices_of(events@) == notices(*old(self), outcome),
    {
        match self.stage {
            SyncStage::PreparingDownloads => {
                self.stage = SyncStage::ScanningPointers;
                one(say(SCANNING, Ratio::none()))
            },
            SyncStage::ScanningPointers => match outcome {
                Outcome::Pointers(found) => self.on_pointers(found),
                _ => none(),
            },
            SyncStage::RequestingBatch(i) => match outcome {
                Outcome::Batch { accepted, status, href } => self.on_batch(
                    i,
                    accepted,
                    status,
                    href,
                ),
                _ => none(),
            },
            SyncStage::GettingObject(i) => match outcome {
                Outcome::Response { delivered, status } => {
                    if delivered {
                        self.stage = SyncStage::StoringObject(i);
                        none()
                    } else {
                        let events = self.give_up(
                            glue("Failed to download LFS file: ", status.as_str()),
                        );
                        assert(notices_of(events@) =~= notices(*old(self), outcome));
                        events
                    }
                },
                _ => none(),
            },
            SyncStage::StoringObject(i) => self.on_stored(i),
            _ => none(),
        }
    }

    /// Takes what came of the work that was asked for, and goes on. Returns
    /// what is to be sent to the control loop, in order.
    ///
    /// The job must not have finished, and the outcome must be one that the
    /// work can have ([`SyncJob::accepts`]).
    pub fn advance(&mut self, outcome: Outcome) -> (events: Vec<GitProgress>)
        requires
            old(self).wf(),
            outcome_fits(old(self).stage, outcome),
        ensures
            advanced(*old(self), outcome, *final(self)),
            final(self).wf(),
            notices_of(events@) == notices(*old(self), outcome),
    {
        match outcome {
            Outcome::Failed(cause) => self.on_failure(cause),
            other => match self.stage {
                SyncStage::Opening | SyncStage::Initializing | SyncStage::BindingRemote
                | SyncStage::FindingRemote | SyncStage::Fetching | SyncStage::FindingFetched
                | SyncStage::PeelingFetched => self.on_repository(other),
                SyncStage::Analyzing | SyncStage::ResolvingHead | SyncStage::FindingLocal
                | SyncStage::CreatingLocal | SyncStage::Retargeting | SyncStage::MergingTrees
                | SyncStage::Committing | SyncStage::CheckingOut => self.on_merge(other),
                SyncStage::Cleaning(_) => self.on_cleaning(other),
                SyncStage::ProbingSource(_) | SyncStage::CreatingParent(_)
                | SyncStage::ProbingDestination(_) | SyncStage::RemovingDestination(_)
                | SyncStage::CopyingDirectory(_) | SyncStage::CopyingFile(_) => self.on_overlay(
                    other,
                ),
                _ => self.on_downloads(other),
            },
        }
    }

    /// The work that is to be done next, if the job is well formed and has
    /// not finished; nothing otherwise. This is [`SyncJob::action`] without
    /// its demand on the job.
    pub fn next_action(&self) -> (action: Option<SyncAction>)
        ensures
            self.wf() ==> requested(*self, action),
            action is None <==> !self.wf() || self.stage is Finished,
    {
        if self.is_well_formed() {
            self.action()
        } else {
            None
        }
    }

    /// Takes what came of the work that was asked for, if it can be taken.
    ///
    /// Nothing happens, and nothing is returned, where the job is not well
    /// formed or has finished, and where the outcome is none that the work
    /// asked for can have. Otherwise this is [`SyncJob::advance`].
    pub fn report(&mut self, outcome: Outcome) -> (out: Option<Vec<GitProgress>>)
        ensures
            out is Some <==> old(self).wf() && outcome_fits(old(self).stage, outcome),
            out matches Some(events) ==> {
                &&& advanced(*old(self), outcome, *final(self))
                &&& final(self).wf()
                &&& notices_of(events@) == notices(*old(self), outcome)
            },
            out is None ==> *final(self) == *old(self),
    {
        if !self.is_well_formed() || !self.accepts(&outcome) {
            return None;
        }
        Some(self.advance(outcome))
    }
}

} // verus!
