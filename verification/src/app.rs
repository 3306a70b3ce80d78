//! The application state that the control loop owns, and the moves through
//! the folder browser and the history list.
//!
//! Nothing here reaches outside the process. Whatever a move needs from the
//! file system (the sub-folders of a directory) is handed in by the caller.

use crate::paths::{
    file_name_of, is_arrival_row, names_of, parent_of, path_file_name, path_parent,
    position_named,
};
use vstd::prelude::*;

verus! {

/// How far a job has come: `done` parts out of `total`.
#[derive(Debug, Clone, Copy, PartialEq, Eq, Structural)]
pub struct Ratio {
    pub done: u128,
    pub total: u128,
}

impl Ratio {
    /// A ratio has something to divide by.
    pub open spec fn wf(self) -> bool {
        self.total > 0
    }

    /// The ratio lies between nothing and everything.
    pub open spec fn in_unit_range(self) -> bool {
        self.wf() && self.done <= self.total
    }

    /// Nothing done.
    pub fn none() -> (r: Ratio)
        ensures
            r == (Ratio { done: 0, total: 1 }),
            r.in_unit_range(),
    {
        Ratio { done: 0, total: 1 }
    }

    /// Everything done.
    pub fn all() -> (r: Ratio)
        ensures
            r == (Ratio { done: 1, total: 1 }),
            r.in_unit_range(),
    {
        Ratio { done: 1, total: 1 }
    }

    /// `done` out of `total`, and nothing done while the total is unknown
    /// (zero).
    pub fn of(done: u128, total: u128) -> (r: Ratio)
        ensures
            r.wf(),
            total > 0 ==> r == (Ratio { done, total }),
            total == 0 ==> r == (Ratio { done: 0, total: 1 }),
            done <= total ==> r.in_unit_range(),
    {
        if total > 0 {
            Ratio { done, total }
        } else {
            Ratio { done: 0, total: 1 }
        }
    }
}

/// One event on a job's progress channel.
///
/// A job sends any number of `Update`s and then exactly one `Success` or
/// `Failure`; nothing follows that.
#[derive(Debug, Clone, PartialEq, Eq)]
pub enum GitProgress {
    Update(String, Ratio),
    Success(String),
    Failure(String),
}

impl GitProgress {
    /// Whether the event ends its channel.
    pub open spec fn is_terminal(self) -> bool {
        self is Success || self is Failure
    }

    /// Tests whether the event ends its channel.
    pub fn ends_channel(&self) -> (terminal: bool)
        ensures
            terminal == self.is_terminal(),
    {
        match self {
            GitProgress::Update(_, _) => false,
            _ => true,
        }
    }
}

/// What the check for a newer release found.
#[derive(Debug, Clone, PartialEq, Eq)]
pub enum UpdateStatus {
    UpToDate,
    UpdateAvailable(String),
    Error,
}

/// What the check for the two required tools found.
#[derive(Debug, Clone, Copy, PartialEq, Eq, Structural)]
pub enum DependencyStatus {
    AllOk,
    GitMissing,
    GitLfsMissing,
}

/// Which of the two screens is up.
#[derive(Debug, Clone, Copy, PartialEq, Eq, Structural)]
pub enum RunMode {
    StartupSelection,
    FileBrowser,
}

/// The highlighted row of a list, if any.
#[derive(Debug, Clone, Copy, PartialEq, Eq, Structural)]
pub struct ListState {
    pub selected: Option<usize>,
}

impl ListState {
    /// A list with no row highlighted.
    pub fn new() -> (list: ListState)
        ensures
            list.selected is None,
    {
        ListState { selected: None }
    }

    /// Highlights the given row, or none.
    pub fn select(&mut self, index: Option<usize>)
        ensures
            final(self).selected == index,
    {
        self.selected = index;
    }

    /// The highlighted row.
    pub fn selected(&self) -> (index: Option<usize>)
        ensures
            index == self.selected,
    {
        self.selected
    }
}

/// The one state the application is in.
#[derive(Debug, Clone, PartialEq, Eq)]
pub enum AppState {
    CheckingDependencies,
    ConfirmDependencyInstall { missing: DependencyStatus },
    InstallingDependencies,
    Browsing,
    AwaitingInput,
    ConfirmReinit,
    ConfirmInvalidFolder { path: String },
    InsideInstanceFolderError,
    ConfirmUpdate { version: String },
    FetchingChangelog,
    ViewingChangelog { content: String, scroll: u16 },
    FetchingBranches,
    BranchSelection {
        branches: Vec<String>,
        list_state: ListState,
        selected_branch: Option<String>,
    },
    Processing { message: String, progress: Ratio },
    Finished(String),
}

impl AppState {
    /// A highlighted branch is one of the branches on offer.
    pub open spec fn wf(self) -> bool {
        self matches AppState::BranchSelection { branches, list_state, .. } ==> (
        list_state.selected matches Some(i) ==> i < branches.len())
    }
}

/// The steps of the guided tour.
#[derive(Debug, Clone, Copy, PartialEq, Eq, Structural)]
pub enum TutorialState {
    Welcome,
    StartupMenu,
    InsideInstanceFolderHint,
    FileBrowserNav,
    FileBrowserSelect,
    InvalidSelectionHint,
    FileBrowserConfirm,
}

/// The kinds of background job.
#[derive(Debug, Clone, Copy, PartialEq, Eq, Structural)]
pub enum JobKind {
    DependencyCheck,
    Install,
    UpdateCheck,
    BranchList,
    ChangelogFetch,
    Sync,
}

/// For each kind of job, whether the control loop is listening for one.
#[derive(Debug, Clone, Copy, PartialEq, Eq, Structural)]
pub struct Jobs {
    pub dependency_check: bool,
    pub install: bool,
    pub update_check: bool,
    pub branch_list: bool,
    pub changelog_fetch: bool,
    pub sync: bool,
}

impl Jobs {
    /// Whether a job of the given kind is being listened for.
    pub open spec fn listening(self, kind: JobKind) -> bool {
        match kind {
            JobKind::DependencyCheck => self.dependency_check,
            JobKind::Install => self.install,
            JobKind::UpdateCheck => self.update_check,
            JobKind::BranchList => self.branch_list,
            JobKind::ChangelogFetch => self.changelog_fetch,
            JobKind::Sync => self.sync,
        }
    }

    /// Whether none of the jobs that a state waits for is being listened
    /// for.
    pub open spec fn quiet(self) -> bool {
        &&& !self.dependency_check
        &&& !self.install
        &&& !self.changelog_fetch
        &&& !self.branch_list
        &&& !self.sync
    }

    /// No job is being listened for.
    pub fn idle() -> (jobs: Jobs)
        ensures
            forall|kind: JobKind| !jobs.listening(kind),
    {
        Jobs {
            dependency_check: false,
            install: false,
            update_check: false,
            branch_list: false,
            changelog_fetch: false,
            sync: false,
        }
    }
}

/// The job that a state waits for, if it waits for one.
pub open spec fn awaited_job(state: AppState) -> Option<JobKind> {
    match state {
        AppState::CheckingDependencies => Some(JobKind::DependencyCheck),
        AppState::InstallingDependencies => Some(JobKind::Install),
        AppState::FetchingChangelog => Some(JobKind::ChangelogFetch),
        AppState::FetchingBranches => Some(JobKind::BranchList),
        AppState::Processing { .. } => Some(JobKind::Sync),
        _ => None,
    }
}

/// What one synchronisation works on: the folder and the branch. Both stay
/// as they are for as long as the job runs.
#[derive(Debug, Clone, PartialEq, Eq)]
pub struct SyncTarget {
    pub path: String,
    pub branch: String,
}

/// Whether state and listening go together. Each kind of job that a state
/// waits for is listened for exactly while the state waits for it: the
/// dependency check, the installation, the changelog, the branch list and
/// the synchronisation. (The update check has no state of its own.)
pub open spec fn go_together(jobs: Jobs, state: AppState) -> bool {
    &&& jobs.listening(JobKind::DependencyCheck) <==> awaited_job(state) == Some(
        JobKind::DependencyCheck,
    )
    &&& jobs.listening(JobKind::Install) <==> awaited_job(state) == Some(JobKind::Install)
    &&& jobs.listening(JobKind::ChangelogFetch) <==> awaited_job(state) == Some(
        JobKind::ChangelogFetch,
    )
    &&& jobs.listening(JobKind::BranchList) <==> awaited_job(state) == Some(JobKind::BranchList)
    &&& jobs.listening(JobKind::Sync) <==> awaited_job(state) == Some(JobKind::Sync)
}

/// Everything the control loop knows.
#[derive(Debug)]
pub struct App {
    pub mode: RunMode,
    /// Folders used before, oldest first.
    pub history: Vec<String>,
    /// The highlighted row of the start screen: a history entry, or the row
    /// after the last one, which opens the browser.
    pub history_state: ListState,
    pub current_dir: String,
    pub initial_dir: String,
    /// The sub-folders of `current_dir`.
    pub items: Vec<String>,
    pub selected: usize,
    pub list_state: ListState,
    pub selected_path: Option<String>,
    pub confirmed_path: Option<String>,
    pub state: AppState,
    /// The text in the path field, as of the last edit.
    pub input: String,
    pub input_error: Option<String>,
    pub jobs: Jobs,
    /// What the synchronisation that is listened for works on.
    pub sync_target: Option<SyncTarget>,
    pub pending_update: Option<String>,
    pub should_perform_update: bool,
    pub gosling_mode: bool,
    pub tutorial: Option<TutorialState>,
    pub tutorial_interactive: bool,
    pub tutorial_paused: bool,
    pub tutorial_step1_expanded: bool,
    /// Whether typed paths are written with backslashes, as on Windows,
    /// rather than with slashes.
    pub windows_paths: bool,
}

impl App {
    /// The cursor of the browser points at one of the listed folders, the
    /// highlight (if any) agrees with it, the state is well formed, and a
    /// synchronisation that is listened for has its target remembered.
    pub open spec fn wf(&self) -> bool {
        &&& self.items.len() > 0 ==> self.selected < self.items.len()
        &&& self.items.len() > 0 ==> (self.list_state.selected matches Some(i) ==> i
            == self.selected)
        &&& self.state.wf()
        &&& self.jobs.sync ==> self.sync_target is Some
    }

    /// Tests whether the application is well formed.
    pub fn is_well_formed(&self) -> (ok: bool)
        ensures
            ok == self.wf(),
    {
        let highlight_ok = match self.list_state.selected {
            Some(i) => i == self.selected,
            None => true,
        };
        let cursor_ok = self.items.len() == 0 || (self.selected < self.items.len()
            && highlight_ok);
        let state_ok = match &self.state {
            AppState::BranchSelection { branches, list_state, .. } => match list_state.selected {
                Some(i) => i < branches.len(),
                None => true,
            },
            _ => true,
        };
        let target_ok = !self.jobs.sync || self.sync_target.is_some();
        cursor_ok && state_ok && target_ok
    }

    /// Whether the state waits for a job.
    pub open spec fn waits(&self) -> bool {
        awaited_job(self.state) is Some
    }

    /// Tests whether the state waits for a job.
    pub fn is_waiting(&self) -> (waiting: bool)
        ensures
            waiting == self.waits(),
    {
        match &self.state {
            AppState::CheckingDependencies => true,
            AppState::InstallingDependencies => true,
            AppState::FetchingChangelog => true,
            AppState::FetchingBranches => true,
            AppState::Processing { .. } => true,
            _ => false,
        }
    }

    /// State and listening go together; see [`go_together`].
    pub open spec fn jobs_consistent(&self) -> bool {
        go_together(self.jobs, self.state)
    }

    /// Whether the synchronisation that is listened for works on the
    /// confirmed folder.
    pub open spec fn target_confirmed(&self) -> bool {
        self.jobs.sync ==> (self.sync_target matches Some(target) && self.confirmed_path == Some(
            target.path,
        ))
    }

    /// State and listening go together, kind by kind. Where they do, a job
    /// of a kind that has a state of its own is listened for exactly while
    /// the state waits for it, and so at most one such job is listened for
    /// at a time.
    pub proof fn lemma_state_and_listening(self, kind: JobKind)
        requires
            self.jobs_consistent(),
            kind != JobKind::UpdateCheck,
        ensures
            self.jobs.listening(kind) <==> awaited_job(self.state) == Some(kind),
            self.jobs.listening(kind) ==> forall|other: JobKind|
                other != kind && other != JobKind::UpdateCheck ==> !self.jobs.listening(other),
    {
    }

    /// The application as it starts: on the start screen, about to check its
    /// dependencies, with the first history entry highlighted if there is
    /// one, and the guided tour at its first step if it is to be shown.
    pub fn new(history: Vec<String>, start_tutorial: bool) -> (app: App)
        ensures
            app.wf(),
            app.mode == RunMode::StartupSelection,
            app.history == history,
            app.history_state.selected == if history.len() > 0 {
                Some(0usize)
            } else {
                None
            },
            app.current_dir@.len() == 0,
            app.initial_dir@.len() == 0,
            app.items.len() == 0,
            app.selected == 0,
            app.list_state.selected is None,
            app.selected_path is None,
            app.confirmed_path is None,
            app.state == AppState::CheckingDependencies,
            app.input@.len() == 0,
            app.input_error is None,
            forall|kind: JobKind| !app.jobs.listening(kind),
            app.sync_target is None,
            app.pending_update is None,
            !app.should_perform_update,
            !app.gosling_mode,
            app.tutorial == if start_tutorial {
                Some(TutorialState::Welcome)
            } else {
                None
            },
            !app.tutorial_interactive,
            !app.tutorial_paused,
            !app.tutorial_step1_expanded,
            !app.windows_paths,
    {
        let mut history_state = ListState::new();
        if history.len() > 0 {
            history_state.select(Some(0));
        }
        let tutorial = if start_tutorial {
            Some(TutorialState::Welcome)
        } else {
            None
        };
        let jobs = Jobs::idle();
        assert(!jobs.listening(JobKind::Sync));
        App {
            mode: RunMode::StartupSelection,
            history,
            history_state,
            current_dir: String::new(),
            initial_dir: String::new(),
            items: Vec::new(),
            selected: 0,
            list_state: ListState::new(),
            selected_path: None,
            confirmed_path: None,
            state: AppState::CheckingDependencies,
            input: String::new(),
            input_error: None,
            jobs,
            sync_target: None,
            pending_update: None,
            should_perform_update: false,
            gosling_mode: false,
            tutorial,
            tutorial_interactive: false,
            tutorial_paused: false,
            tutorial_step1_expanded: false,
            windows_paths: false,
        }
    }

    /// The application once the browser has been opened on `path`, whose
    /// sub-folders are `items`.
    pub open spec fn browser_opened(self, path: String, items: Vec<String>) -> App {
        App {
            current_dir: path,
            initial_dir: path,
            items,
            selected: 0,
            list_state: ListState {
                selected: if items.len() > 0 {
                    Some(0usize)
                } else {
                    None
                },
            },
            selected_path: None,
            confirmed_path: None,
            state: AppState::Browsing,
            mode: RunMode::FileBrowser,
            ..self
        }
    }

    /// Opens the browser on `path`, whose sub-folders are `items`: the
    /// first folder is highlighted, nothing is chosen or confirmed, and the
    /// browser screen is up. While the state waits for a job the browser is
    /// not opened, and nothing changes.
    pub fn init_file_browser(&mut self, path: String, items: Vec<String>)
        ensures
            *final(self) == if old(self).waits() {
                *old(self)
            } else {
                old(self).browser_opened(path, items)
            },
            old(self).wf() ==> final(self).wf(),
            old(self).jobs_consistent() ==> final(self).jobs_consistent(),
            (old(self).jobs_consistent() && old(self).target_confirmed())
                ==> final(self).target_confirmed(),
    {
        if self.is_waiting() {
            return;
        }
        let mut list_state = ListState::new();
        if items.len() > 0 {
            list_state.select(Some(0));
        }
        self.current_dir = path.clone();
        self.initial_dir = path;
        self.items = items;
        self.selected = 0;
        self.list_state = list_state;
        self.selected_path = None;
        self.confirmed_path = None;
        self.state = AppState::Browsing;
        self.mode = RunMode::FileBrowser;
    }

    /// The row of the start screen below `row`, where the rows are the
    /// `entries` history entries and one more after them; below that last
    /// row comes the first. With no row highlighted, the first.
    pub open spec fn history_row_below(row: Option<usize>, entries: usize) -> usize {
        match row {
            None => 0,
            Some(i) => if i >= entries {
                0
            } else {
                (i + 1) as usize
            },
        }
    }

    /// The row of the start screen above `row`; above the first row comes
    /// the row after the last history entry. With no row highlighted, the
    /// first.
    pub open spec fn history_row_above(row: Option<usize>, entries: usize) -> usize {
        match row {
            None => 0,
            Some(i) => if i == 0 {
                entries
            } else {
                (i - 1) as usize
            },
        }
    }

    /// Moves the highlight of the start screen one row down.
    pub fn history_next(&mut self)
        ensures
            *final(self) == (App {
                history_state: ListState {
                    selected: Some(
                        Self::history_row_below(
                            old(self).history_state.selected,
                            old(self).history.len(),
                        ),
                    ),
                },
                ..*old(self)
            }),
    {
        let entries = self.history.len();
        let i: usize = match self.history_state.selected() {
            None => 0,
            Some(i) => if i >= entries {
                0
            } else {
                i + 1
            },
        };
        self.history_state.select(Some(i));
    }

    /// Moves the highlight of the start screen one row up.
    pub fn history_previous(&mut self)
        ensures
            *final(self) == (App {
                history_state: ListState {
                    selected: Some(
                        Self::history_row_above(
                            old(self).history_state.selected,
                            old(self).history.len(),
                        ),
                    ),
                },
                ..*old(self)
            }),
    {
        let entries = self.history.len();
        let i: usize = match self.history_state.selected() {
            None => 0,
            Some(i) => if i == 0 {
                entries
            } else {
                i - 1
            },
        };
        self.history_state.select(Some(i));
    }

    /// The folder below `row` in a list of `count` folders; below the last
    /// comes the first. With no row highlighted, the first.
    pub open spec fn row_below(row: Option<usize>, count: usize) -> usize {
        match row {
            None => 0,
            Some(i) => if i >= count - 1 {
                0
            } else {
                (i + 1) as usize
            },
        }
    }

    /// The folder above `row` in a list of `count` folders; above the first
    /// comes the last. With no row highlighted, the first.
    pub open spec fn row_above(row: Option<usize>, count: usize) -> usize {
        match row {
            None => 0,
            Some(i) => if i == 0 {
                (count - 1) as usize
            } else {
                (i - 1) as usize
            },
        }
    }

    /// The application with the browser's cursor on folder `row`.
    pub open spec fn with_cursor(self, row: usize) -> App {
        App { selected: row, list_state: ListState { selected: Some(row) }, ..self }
    }

    /// The application with the cursor one folder further down; the same
    /// application in an empty folder.
    pub open spec fn stepped_down(self) -> App {
        if self.items.len() > 0 {
            self.with_cursor(Self::row_below(self.list_state.selected, self.items.len()))
        } else {
            self
        }
    }

    /// The application with the cursor one folder further up; the same
    /// application in an empty folder.
    pub open spec fn stepped_up(self) -> App {
        if self.items.len() > 0 {
            self.with_cursor(Self::row_above(self.list_state.selected, self.items.len()))
        } else {
            self
        }
    }

    /// Moves the browser's cursor one folder down; does nothing in an empty
    /// folder.
    pub fn next(&mut self)
        requires
            old(self).wf(),
        ensures
            final(self).wf(),
            *final(self) == old(self).stepped_down(),
    {
        let count = self.items.len();
        if count > 0 {
            let i: usize = match self.list_state.selected() {
                None => 0,
                Some(i) => if i >= count - 1 {
                    0
                } else {
                    i + 1
                },
            };
            self.selected = i;
            self.list_state.select(Some(i));
        }
    }

    /// Moves the browser's cursor one folder up; does nothing in an empty
    /// folder.
    pub fn previous(&mut self)
        requires
            old(self).wf(),
        ensures
            final(self).wf(),
            *final(self) == old(self).stepped_up(),
    {
        let count = self.items.len();
        if count > 0 {
            let i: usize = match self.list_state.selected() {
                None => 0,
                Some(i) => if i == 0 {
                    count - 1
                } else {
                    i - 1
                },
            };
            self.selected = i;
            self.list_state.select(Some(i));
        }
    }

    /// Whether `after` is the application once the browser has stepped from
    /// `self.current_dir` into `dir`, whose sub-folders are `items`, with the
    /// cursor on `row`.
    pub open spec fn moved_to(self, dir: Seq<char>, items: Vec<String>, row: usize, after: App)
        -> bool {
        &&& after.current_dir@ == dir
        &&& after == (App {
            current_dir: after.current_dir,
            items,
            selected: row,
            list_state: ListState { selected: Some(row) },
            selected_path: None,
            ..self
        })
    }

    /// Whether `after` is the application with nothing changed but the
    /// current directory, which now reads `dir`.
    pub open spec fn stranded_in(self, dir: Seq<char>, after: App) -> bool {
        &&& after.current_dir@ == dir
        &&& after == (App { current_dir: after.current_dir, ..self })
    }

    /// Whether `after` and `done` are what comes of stepping from this
    /// application's current directory to `dir`, given what reading the
    /// sub-folders of `dir` gave, with the cursor landing on the first folder
    /// named `came_from` if there is one and on the first folder otherwise.
    ///
    /// When the sub-folders were read, they are listed, the cursor is set
    /// and nothing is chosen any more. When they could not be read, the
    /// current directory is `dir` all the same, nothing else has changed,
    /// and the error is handed back.
    pub open spec fn stepped_to(
        self,
        dir: Seq<char>,
        came_from: Option<Seq<char>>,
        folders: Result<Vec<String>, String>,
        after: App,
        done: Result<(), String>,
    ) -> bool {
        match folders {
            Ok(items) => {
                &&& done is Ok
                &&& self.moved_to(dir, items, after.selected, after)
                &&& is_arrival_row(names_of(items@), came_from, after.selected as int)
            },
            Err(e) => {
                &&& done == Err::<(), String>(e)
                &&& self.stranded_in(dir, after)
            },
        }
    }

    /// Whether `after` and `done` are what comes of stepping up from the
    /// current directory, given what reading the sub-folders of the
    /// directory above gave. At the top of the file system nothing changes.
    /// Otherwise the cursor lands on the folder that was just left.
    pub open spec fn went_up(
        self,
        folders: Result<Vec<String>, String>,
        after: App,
        done: Result<(), String>,
    ) -> bool {
        match parent_of(self.current_dir@) {
            None => done is Ok && after == self,
            Some(parent) => self.stepped_to(
                parent,
                file_name_of(self.current_dir@),
                folders,
                after,
                done,
            ),
        }
    }

    /// Whether `after` and `done` are what comes of stepping into the folder
    /// under the cursor, given what reading its sub-folders gave (nothing,
    /// when it is not a directory). In an empty folder, and when the entry
    /// under the cursor is not a directory, nothing changes. Otherwise the
    /// cursor lands on the first sub-folder.
    pub open spec fn went_in(
        self,
        folders: Option<Result<Vec<String>, String>>,
        after: App,
        done: Result<(), String>,
    ) -> bool {
        if self.items.len() == 0 {
            done is Ok && after == self
        } else {
            match folders {
                None => done is Ok && after == self,
                Some(listing) => self.stepped_to(
                    self.items[self.selected as int]@,
                    None,
                    listing,
                    after,
                    done,
                ),
            }
        }
    }

    /// Whether `after` and `done` are what comes of going back to the
    /// directory the browser was opened on, given what reading its
    /// sub-folders gave. The cursor lands on the first sub-folder.
    pub open spec fn went_home(
        self,
        folders: Result<Vec<String>, String>,
        after: App,
        done: Result<(), String>,
    ) -> bool {
        self.stepped_to(self.initial_dir@, None, folders, after, done)
    }

    /// Steps to `parent`, the directory that holds the current one, given
    /// what reading its sub-folders gave. The cursor lands on the first
    /// folder that bears the name `came_from` (the name of the directory just
    /// left), or on the first folder when there is none.
    pub fn ascend(
        &mut self,
        parent: String,
        came_from: Option<String>,
        folders: Result<Vec<String>, String>,
    ) -> (done: Result<(), String>)
        ensures
            old(self).stepped_to(
                parent@,
                match came_from {
                    Some(name) => Some(name@),
                    None => None,
                },
                folders,
                *final(self),
                done,
            ),
            old(self).wf() ==> final(self).wf() || done is Err,
            old(self).jobs_consistent() ==> final(self).jobs_consistent(),
    {
        self.current_dir = parent;
        match folders {
            Err(e) => Err(e),
            Ok(items) => {
                let row: usize = match position_named(&items, &came_from) {
                    Some(i) => i,
                    None => 0,
                };
                self.items = items;
                self.selected = row;
                self.list_state.select(Some(row));
                self.selected_path = None;
                Ok(())
            },
        }
    }

    /// Steps up to the directory that holds the current one, given what
    /// reading that directory's sub-folders gave.
    pub fn go_up(&mut self, folders: Result<Vec<String>, String>) -> (done: Result<(), String>)
        ensures
            old(self).went_up(folders, *final(self), done),
            old(self).wf() ==> final(self).wf() || done is Err,
            old(self).jobs_consistent() ==> final(self).jobs_consistent(),
    {
        match path_parent(self.current_dir.as_str()) {
            None => Ok(()),
            Some(parent) => {
                let came_from = path_file_name(self.current_dir.as_str());
                self.ascend(parent, came_from, folders)
            },
        }
    }

    /// Steps into the folder under the cursor, given what reading its
    /// sub-folders gave; `folders` is nothing when the entry under the cursor
    /// is not a directory.
    pub fn go_in(&mut self, folders: Option<Result<Vec<String>, String>>) -> (done: Result<
        (),
        String,
    >)
        requires
            old(self).wf(),
        ensures
            old(self).went_in(folders, *final(self), done),
            final(self).wf() || done is Err,
            old(self).jobs_consistent() ==> final(self).jobs_consistent(),
    {
        if self.items.len() > 0 {
            match folders {
                None => Ok(()),
                Some(listing) => {
                    self.current_dir = self.items[self.selected].clone();
                    match listing {
                        Err(e) => Err(e),
                        Ok(items) => {
                            self.items = items;
                            self.selected = 0;
                            self.list_state.select(Some(0));
                            self.selected_path = None;
                            assert(names_of(items@).len() == items@.len());
                            Ok(())
                        },
                    }
                },
            }
        } else {
            Ok(())
        }
    }

    /// Goes back to the directory the browser was opened on, given what
    /// reading its sub-folders gave.
    pub fn reset(&mut self, folders: Result<Vec<String>, String>) -> (done: Result<(), String>)
        ensures
            old(self).went_home(folders, *final(self), done),
            old(self).wf() ==> final(self).wf() || done is Err,
            old(self).jobs_consistent() ==> final(self).jobs_consistent(),
    {
        self.current_dir = self.initial_dir.clone();
        match folders {
            Err(e) => Err(e),
            Ok(items) => {
                self.items = items;
                self.selected = 0;
                self.list_state.select(Some(0));
                self.selected_path = None;
                assert(names_of(items@).len() == items@.len());
                Ok(())
            },
        }
    }
}

} // verus!
