//! What the control loop makes of the messages that its background jobs
//! send.
//!
//! Each kind of job has one channel. A message on a channel that the loop is
//! not listening to is dropped. The message that ends a job also ends the
//! listening, and moves the state on from waiting for it: state and
//! listening go together ([`App::jobs_consistent`]).

use crate::app::{
    App, AppState, DependencyStatus, GitProgress, Jobs, ListState, SyncTarget, UpdateStatus,
};
use crate::event::Effect;
use vstd::prelude::*;

verus! {

/// The application's part of starting up: it begins to listen for the
/// dependency check, which the front end has to start. From then on state
/// and listening go together, if the application is as it started: checking
/// its dependencies, with none of the jobs that a state waits for listened
/// for.
pub fn begin(app: &mut App)
    ensures
        *final(app) == (App {
            jobs: Jobs { dependency_check: true, ..old(app).jobs },
            ..*old(app)
        }),
        old(app).wf() ==> final(app).wf(),
        (old(app).state is CheckingDependencies && old(app).jobs.quiet())
            ==> final(app).jobs_consistent(),
        old(app).target_confirmed() ==> final(app).target_confirmed(),
{
    app.jobs.dependency_check = true;
}

/// Begins to listen for the update check, which the front end has to
/// start. Nothing else changes.
pub fn listen_for_update(app: &mut App)
    ensures
        *final(app) == (App {
            jobs: Jobs { update_check: true, ..old(app).jobs },
            ..*old(app)
        }),
        old(app).wf() ==> final(app).wf(),
        old(app).jobs_consistent() ==> final(app).jobs_consistent(),
        old(app).target_confirmed() ==> final(app).target_confirmed(),
{
    app.jobs.update_check = true;
}

/// The state after the dependency check has reported: browsing when nothing
/// is missing, otherwise the question whether to install what is.
pub open spec fn dependencies_checked(app: App, status: DependencyStatus) -> App {
    if !app.jobs.dependency_check {
        app
    } else {
        App {
            state: if status == DependencyStatus::AllOk {
                AppState::Browsing
            } else {
                AppState::ConfirmDependencyInstall { missing: status }
            },
            jobs: Jobs { dependency_check: false, ..app.jobs },
            ..app
        }
    }
}

/// Takes the result of the dependency check.
pub fn on_dependency_status(app: &mut App, status: DependencyStatus)
    ensures
        *final(app) == dependencies_checked(*old(app), status),
        old(app).wf() ==> final(app).wf(),
        old(app).jobs_consistent() ==> final(app).jobs_consistent(),
        old(app).target_confirmed() ==> final(app).target_confirmed(),
{
    if app.jobs.dependency_check {
        match status {
            DependencyStatus::AllOk => {
                app.state = AppState::Browsing;
            },
            _ => {
                app.state = AppState::ConfirmDependencyInstall { missing: status };
            },
        }
        app.jobs.dependency_check = false;
    }
}

/// What the last screen says when the installation failed for `reason`.
pub open spec fn install_failure_text(reason: Seq<char>) -> Seq<char> {
    "Dependency installation failed:\n\n"@ + reason
        + "\n\nPlease install Git and Git LFS manually."@
}

/// Whether `after` is the application once the installation has reported
/// `result`: browsing when it went well, otherwise the last screen with the
/// reason.
pub open spec fn installed(app: App, result: Result<(), String>, after: App) -> bool {
    if !app.jobs.install {
        after == app
    } else {
        &&& after == (App { state: after.state, jobs: Jobs { install: false, ..app.jobs }, ..app })
        &&& match result {
            Ok(_) => after.state == AppState::Browsing,
            Err(reason) => after.state matches AppState::Finished(text) && text@
                == install_failure_text(reason@),
        }
    }
}

/// Takes the result of the installation.
pub fn on_install_result(app: &mut App, result: Result<(), String>)
    ensures
        installed(*old(app), result, *final(app)),
        old(app).wf() ==> final(app).wf(),
        old(app).jobs_consistent() ==> final(app).jobs_consistent(),
        old(app).target_confirmed() ==> final(app).target_confirmed(),
{
    if app.jobs.install {
        match result {
            Ok(_) => {
                app.state = AppState::Browsing;
            },
            Err(reason) => {
                let mut text = String::from_str("Dependency installation failed:\n\n");
                text.append(reason.as_str());
                text.append("\n\nPlease install Git and Git LFS manually.");
                app.state = AppState::Finished(text);
            },
        }
        app.jobs.install = false;
    }
}

/// Whether a newer version is held back rather than offered at once: while
/// the guided tour is running, while the state waits for a job, and while
/// the question whether to install what is missing is up.
pub open spec fn holds_update_back(app: App) -> bool {
    app.tutorial is Some || app.waits() || app.state is ConfirmDependencyInstall
}

/// The application after the update check has reported: a newer version is
/// offered at once, or held back where something is in its way (it is then
/// offered by [`offer_update`], or when the guided tour is left); anything
/// else changes nothing.
pub open spec fn update_checked(app: App, status: UpdateStatus) -> App {
    if !app.jobs.update_check {
        app
    } else {
        let heard = App { jobs: Jobs { update_check: false, ..app.jobs }, ..app };
        match status {
            UpdateStatus::UpdateAvailable(version) => if holds_update_back(app) {
                App { pending_update: Some(version), ..heard }
            } else {
                App { state: AppState::ConfirmUpdate { version }, ..heard }
            },
            _ => heard,
        }
    }
}

/// The application once an update that was held back has been offered, if
/// nothing is in its way any more: while the application is browsing and no
/// guided tour is running, the question whether to update is put. The
/// version stays on record. In every other case nothing changes.
pub open spec fn update_offered(app: App) -> App {
    match app.pending_update {
        Some(version) => if app.state is Browsing && app.tutorial is None {
            App { state: AppState::ConfirmUpdate { version }, ..app }
        } else {
            app
        },
        None => app,
    }
}

/// Offers an update that was held back, if nothing is in its way any more.
///
/// This is a move of its own, apart from the messages of the jobs: the front
/// end makes it when the dependency check or the installation has reported.
pub fn offer_update(app: &mut App)
    ensures
        *final(app) == update_offered(*old(app)),
        old(app).wf() ==> final(app).wf(),
        old(app).jobs_consistent() ==> final(app).jobs_consistent(),
        old(app).target_confirmed() ==> final(app).target_confirmed(),
{
    let browsing = match &app.state {
        AppState::Browsing => true,
        _ => false,
    };
    if browsing && app.tutorial.is_none() {
        match &app.pending_update {
            Some(version) => {
                app.state = AppState::ConfirmUpdate { version: version.clone() };
            },
            None => {},
        }
    }
}

fn in_the_way(app: &App) -> (held: bool)
    ensures
        held == holds_update_back(*app),
{
    let install_question = match &app.state {
        AppState::ConfirmDependencyInstall { .. } => true,
        _ => false,
    };
    app.tutorial.is_some() || app.is_waiting() || install_question
}

fn on_update_available(app: &mut App, version: String)
    ensures
        *final(app) == (if holds_update_back(*old(app)) {
            App { pending_update: Some(version), ..*old(app) }
        } else {
            App { state: AppState::ConfirmUpdate { version }, ..*old(app) }
        }),
        old(app).wf() ==> final(app).wf(),
        old(app).jobs_consistent() ==> final(app).jobs_consistent(),
        old(app).target_confirmed() ==> final(app).target_confirmed(),
{
    if in_the_way(app) {
        app.pending_update = Some(version);
    } else {
        app.state = AppState::ConfirmUpdate { version };
    }
}

/// Takes the result of the update check.
pub fn on_update_status(app: &mut App, status: UpdateStatus)
    ensures
        *final(app) == update_checked(*old(app), status),
        old(app).wf() ==> final(app).wf(),
        old(app).jobs_consistent() ==> final(app).jobs_consistent(),
        old(app).target_confirmed() ==> final(app).target_confirmed(),
{
    if app.jobs.update_check {
        match status {
            UpdateStatus::UpdateAvailable(version) => {
                on_update_available(app, version);
            },
            _ => {},
        }
        app.jobs.update_check = false;
    }
}

/// What the last screen says when the changelog could not be had for
/// `reason`.
pub open spec fn changelog_failure_text(reason: Seq<char>) -> Seq<char> {
    "Failed to fetch changelog:\n\n"@ + reason
}

/// Whether `after` is the application once the changelog job has reported
/// `result`: the changelog from its top, or the last screen with the reason.
pub open spec fn changelog_fetched(app: App, result: Result<String, String>, after: App) -> bool {
    if !app.jobs.changelog_fetch {
        after == app
    } else {
        &&& after == (App {
            state: after.state,
            jobs: Jobs { changelog_fetch: false, ..app.jobs },
            ..app
        })
        &&& match result {
            Ok(content) => after.state == (AppState::ViewingChangelog { content, scroll: 0 }),
            Err(reason) => after.state matches AppState::Finished(text) && text@
                == changelog_failure_text(reason@),
        }
    }
}

/// Takes the result of fetching the changelog.
pub fn on_changelog(app: &mut App, result: Result<String, String>)
    ensures
        changelog_fetched(*old(app), result, *final(app)),
        old(app).wf() ==> final(app).wf(),
        old(app).jobs_consistent() ==> final(app).jobs_consistent(),
        old(app).target_confirmed() ==> final(app).target_confirmed(),
{
    if app.jobs.changelog_fetch {
        match result {
            Ok(content) => {
                app.state = AppState::ViewingChangelog { content, scroll: 0 };
            },
            Err(reason) => {
                let mut text = String::from_str("Failed to fetch changelog:\n\n");
                text.append(reason.as_str());
                app.state = AppState::Finished(text);
            },
        }
        app.jobs.changelog_fetch = false;
    }
}

/// What the last screen says when the branches could not be listed for
/// `reason`.
pub open spec fn branches_failure_text(reason: Seq<char>) -> Seq<char> {
    "Failed to fetch branches:\n\n"@ + reason
}

/// Whether `after` is the application once the branch lister has reported
/// `result`: the branches to pick from, the first one highlighted and none
/// picked, or the last screen with the reason.
pub open spec fn branches_listed(app: App, result: Result<Vec<String>, String>, after: App)
    -> bool {
    if !app.jobs.branch_list {
        after == app
    } else {
        &&& after == (App {
            state: after.state,
            jobs: Jobs { branch_list: false, ..app.jobs },
            ..app
        })
        &&& match result {
            Ok(branches) => after.state == (AppState::BranchSelection {
                branches,
                list_state: ListState {
                    selected: if branches.len() > 0 {
                        Some(0usize)
                    } else {
                        None
                    },
                },
                selected_branch: None,
            }),
            Err(reason) => after.state matches AppState::Finished(text) && text@
                == branches_failure_text(reason@),
        }
    }
}

/// Takes the result of listing the branches.
pub fn on_branches(app: &mut App, result: Result<Vec<String>, String>)
    ensures
        branches_listed(*old(app), result, *final(app)),
        old(app).wf() ==> final(app).wf(),
        old(app).jobs_consistent() ==> final(app).jobs_consistent(),
        old(app).target_confirmed() ==> final(app).target_confirmed(),
{
    if app.jobs.branch_list {
        match result {
            Ok(branches) => {
                let mut list_state = ListState::new();
                if branches.len() > 0 {
                    list_state.select(Some(0));
                }
                app.state = AppState::BranchSelection {
                    branches,
                    list_state,
                    selected_branch: None,
                };
            },
            Err(reason) => {
                let mut text = String::from_str("Failed to fetch branches:\n\n");
                text.append(reason.as_str());
                app.state = AppState::Finished(text);
            },
        }
        app.jobs.branch_list = false;
    }
}

/// Whether `path` is one of `entries`.
pub open spec fn listed(entries: Seq<String>, path: Seq<char>) -> bool {
    exists|i: int| 0 <= i < entries.len() && (#[trigger] entries[i])@ == path
}

fn is_listed(entries: &Vec<String>, path: &String) -> (found: bool)
    ensures
        found == listed(entries@, path@),
{
    let mut i: usize = 0;
    while i < entries.len()
        invariant
            i <= entries.len(),
            forall|k: int| 0 <= k < i ==> (#[trigger] entries@[k])@ != path@,
        decreases entries.len() - i,
    {
        if entries[i] == *path {
            return true;
        }
        i += 1;
    }
    false
}

/// Whether `after` is the history once `target` has been synchronised, and
/// `effect` what is to be done about it: the folder is added at the end
/// unless it is there already, and what was added is to be saved.
pub open spec fn remembered(
    history: Vec<String>,
    target: Option<SyncTarget>,
    after: Vec<String>,
    effect: Effect,
) -> bool {
    match target {
        Some(target) => if listed(history@, target.path@) {
            after == history && effect is Nothing
        } else {
            after@ == history@.push(target.path) && effect is SaveHistory
        },
        None => after == history && effect is Nothing,
    }
}

/// Whether `after` and `effect` are what comes of the synchronisation
/// reporting `event`.
///
/// An update shows on the progress screen. Success puts the folder that the
/// job worked on into the history, unless it is there already, has the
/// history saved, and shows the last screen with the job's message. Failure
/// shows the last screen with the job's message. Either of the two ends the
/// listening.
pub open spec fn progressed(app: App, event: GitProgress, after: App, effect: Effect) -> bool {
    if !app.jobs.sync {
        after == app && effect is Nothing
    } else {
        match event {
            GitProgress::Update(message, progress) => {
                &&& after == (App { state: AppState::Processing { message, progress }, ..app })
                &&& effect is Nothing
            },
            GitProgress::Success(message) => {
                &&& after == (App {
                    history: after.history,
                    state: AppState::Finished(message),
                    jobs: Jobs { sync: false, ..app.jobs },
                    sync_target: None,
                    ..app
                })
                &&& remembered(app.history, app.sync_target, after.history, effect)
            },
            GitProgress::Failure(message) => {
                &&& after == (App {
                    state: AppState::Finished(message),
                    jobs: Jobs { sync: false, ..app.jobs },
                    sync_target: None,
                    ..app
                })
                &&& effect is Nothing
            },
        }
    }
}

fn remember(history: &mut Vec<String>, target: Option<SyncTarget>) -> (effect: Effect)
    ensures
        remembered(*old(history), target, *final(history), effect),
{
    match target {
        Some(worked_on) => {
            if !is_listed(history, &worked_on.path) {
                history.push(worked_on.path);
                Effect::SaveHistory
            } else {
                Effect::Nothing
            }
        },
        None => Effect::Nothing,
    }
}

fn on_success(app: &mut App, message: String) -> (effect: Effect)
    requires
        old(app).jobs.sync,
    ensures
        progressed(*old(app), GitProgress::Success(message), *final(app), effect),
        old(app).wf() ==> final(app).wf(),
        old(app).jobs_consistent() ==> final(app).jobs_consistent(),
        old(app).target_confirmed() ==> final(app).target_confirmed(),
{
    let mut target: Option<SyncTarget> = None;
    std::mem::swap(&mut target, &mut app.sync_target);
    let effect = remember(&mut app.history, target);
    app.state = AppState::Finished(message);
    app.jobs.sync = false;
    effect
}

fn on_failure(app: &mut App, message: String)
    requires
        old(app).jobs.sync,
    ensures
        progressed(*old(app), GitProgress::Failure(message), *final(app), Effect::Nothing),
        old(app).wf() ==> final(app).wf(),
        old(app).jobs_consistent() ==> final(app).jobs_consistent(),
        old(app).target_confirmed() ==> final(app).target_confirmed(),
{
    app.state = AppState::Finished(message);
    app.jobs.sync = false;
    app.sync_target = None;
}

/// Takes one event from the synchronisation.
pub fn on_progress(app: &mut App, event: GitProgress) -> (effect: Effect)
    ensures
        progressed(*old(app), event, *final(app), effect),
        old(app).wf() ==> final(app).wf(),
        old(app).jobs_consistent() ==> final(app).jobs_consistent(),
        old(app).target_confirmed() ==> final(app).target_confirmed(),
{
    if !app.jobs.sync {
        return Effect::Nothing;
    }
    match event {
        GitProgress::Update(message, progress) => {
            app.state = AppState::Processing { message, progress };
            Effect::Nothing
        },
        GitProgress::Success(message) => on_success(app, message),
        GitProgress::Failure(message) => {
            on_failure(app, message);
            Effect::Nothing
        },
    }
}

/// The history gets the confirmed folder. Where the synchronisation that is
/// listened for works on the confirmed folder, its success puts that folder
/// into the history, unless it is there already, and has the history saved.
pub proof fn lemma_history_gets_confirmed_folder(
    app: App,
    message: String,
    after: App,
    effect: Effect,
)
    requires
        app.jobs.sync,
        app.target_confirmed(),
        progressed(app, GitProgress::Success(message), after, effect),
    ensures
        app.confirmed_path matches Some(path) && if listed(app.history@, path@) {
            after.history == app.history && effect is Nothing
        } else {
            after.history@ == app.history@.push(path) && effect is SaveHistory
        },
{
}

} // verus!
