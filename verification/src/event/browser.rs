//! Key presses on the browser screen and on the dialogs that open over it.

use crate::app::{App, AppState, Jobs, ListState, Ratio, RunMode, SyncTarget};
use crate::event::{
    is_valid_instance_folder, Answer, Effect, Flow, InstanceMarks, KeyCode, KeyPress, Needs,
    Opened, Opening, Probe, Reaction,
};
use crate::git::{parse_input_path, typed_path};
use crate::history::{keep_existing, kept};
use crate::music::{MusicCommand, MusicPlayer};
use crate::paths::{parent_of, path_parent};
use vstd::prelude::*;

verus! {

/// Typing this instead of a path switches the hidden mode on.
pub const SECRET_PHRASE: &'static str = "literally me";

/// What the path field says when the typed path leads nowhere.
pub const PATH_NOT_FOUND: &'static str = "Error: Path not found or is not a directory.";

/// What the progress screen says before the job has reported anything.
pub const INITIALIZING: &'static str = "Initializing...";

/// The sub-folders that opening a directory gave, or the reason it gave
/// none; nothing when there was no directory to open.
pub open spec fn listing_of(opened: Opened) -> Option<Result<Vec<String>, String>> {
    match opened {
        Opened::NotADirectory => None,
        Opened::Unreadable(e) => Some(Err(e)),
        Opened::Listed { folders, .. } => Some(Ok(folders)),
    }
}

fn into_listing(opened: Opened) -> (out: Option<Result<Vec<String>, String>>)
    ensures
        out == listing_of(opened),
{
    match opened {
        Opened::NotADirectory => None,
        Opened::Unreadable(e) => Some(Err(e)),
        Opened::Listed { dir, folders, marks } => Some(Ok(folders)),
    }
}

/// What a move through the file system came to, as the reaction tells it.
pub open spec fn done_of(reaction: Reaction) -> Result<(), String> {
    match reaction.flow {
        Flow::Fail(e) => Err(e),
        _ => Ok(()),
    }
}

/// Whether the reaction reports what a move through the file system came
/// to: go on when it went well, give up with its error when it did not.
pub open spec fn reports(reaction: Reaction, done: Result<(), String>) -> bool {
    match done {
        Ok(_) => reaction.is_idle(),
        Err(e) => reaction.is_failure(e),
    }
}

fn report(done: Result<(), String>) -> (reaction: Reaction)
    ensures
        reports(reaction, done),
        done_of(reaction) == done,
{
    match done {
        Ok(unit) => {
            assert(unit == ());
            Reaction::idle()
        },
        Err(e) => Reaction::fail(e),
    }
}

/// Whether the folder under the cursor is the one that has been chosen.
pub open spec fn cursor_is_chosen(app: App) -> bool {
    &&& app.items.len() > 0
    &&& app.selected_path matches Some(chosen)
    &&& chosen@ == app.items[app.selected as int]@
}

fn cursor_on_chosen(app: &App) -> (chosen: bool)
    requires
        app.wf(),
    ensures
        chosen == cursor_is_chosen(*app),
{
    if app.items.len() > 0 {
        match &app.selected_path {
            Some(chosen) => *chosen == app.items[app.selected],
            None => false,
        }
    } else {
        false
    }
}

/// Whether the path field holds the secret phrase.
pub open spec fn secret_typed(app: App) -> bool {
    app.input@ == SECRET_PHRASE@
}

fn typed_secret(app: &App) -> (secret: bool)
    ensures
        secret == secret_typed(*app),
{
    let phrase = String::from_str(SECRET_PHRASE);
    app.input == phrase
}

/// What stepping up from the current directory needs: the sub-folders of the
/// directory above, if there is one.
pub open spec fn ascent_needs(app: App) -> Needs {
    match parent_of(app.current_dir@) {
        Some(parent) => Needs::directory(parent, Opening::List),
        None => Needs::nothing(),
    }
}

pub(crate) fn ascent_probe(app: &App) -> (probe: Probe)
    ensures
        probe@ == ascent_needs(*app),
{
    match path_parent(app.current_dir.as_str()) {
        Some(parent) => Probe::directory(parent, Opening::List),
        None => Probe::nothing(),
    }
}

/// What a key press on the browser screen needs from the disk.
pub open spec fn browser_needs(app: App, key: KeyPress) -> Needs {
    match app.state {
        AppState::Browsing => match key.code {
            KeyCode::Right => if app.items.len() > 0 {
                Needs::directory(app.items[app.selected as int]@, Opening::IfDirectory)
            } else {
                Needs::nothing()
            },
            KeyCode::Left => ascent_needs(app),
            KeyCode::Home => Needs::directory(app.initial_dir@, Opening::List),
            KeyCode::Enter => if cursor_is_chosen(app) {
                Needs::marks_of(app.items[app.selected as int]@)
            } else {
                Needs::nothing()
            },
            KeyCode::Esc => if app.selected_path is None {
                Needs::surviving_history()
            } else {
                Needs::nothing()
            },
            _ => Needs::nothing(),
        },
        AppState::InsideInstanceFolderError => if key.code == KeyCode::Left {
            ascent_needs(app)
        } else {
            Needs::nothing()
        },
        AppState::AwaitingInput => if key.code == KeyCode::Enter && !secret_typed(app) {
            Needs::directory(typed_path(app.input@, app.windows_paths), Opening::Typed)
        } else {
            Needs::nothing()
        },
        _ => Needs::nothing(),
    }
}

/// Says what [`handle_file_browser_input`] will need to know.
pub fn browser_probe(app: &App, key: &KeyPress) -> (probe: Probe)
    requires
        app.wf(),
    ensures
        probe@ == browser_needs(*app, *key),
{
    match &app.state {
        AppState::Browsing => match key.code {
            KeyCode::Right => {
                if app.items.len() > 0 {
                    Probe::directory(app.items[app.selected].clone(), Opening::IfDirectory)
                } else {
                    Probe::nothing()
                }
            },
            KeyCode::Left => ascent_probe(app),
            KeyCode::Home => Probe::directory(app.initial_dir.clone(), Opening::List),
            KeyCode::Enter => {
                if cursor_on_chosen(app) {
                    Probe::marks_of(app.items[app.selected].clone())
                } else {
                    Probe::nothing()
                }
            },
            KeyCode::Esc => {
                if app.selected_path.is_none() {
                    Probe::surviving_history()
                } else {
                    Probe::nothing()
                }
            },
            _ => Probe::nothing(),
        },
        AppState::InsideInstanceFolderError => match key.code {
            KeyCode::Left => ascent_probe(app),
            _ => Probe::nothing(),
        },
        AppState::AwaitingInput => match key.code {
            KeyCode::Enter => {
                if typed_secret(app) {
                    Probe::nothing()
                } else {
                    Probe::directory(
                        parse_input_path(app.input.as_str(), app.windows_paths),
                        Opening::Typed,
                    )
                }
            },
            _ => Probe::nothing(),
        },
        _ => Probe::nothing(),
    }
}

/// The sound a key press on the browser screen makes, if any.
pub open spec fn browser_sound(app: App, key: KeyPress) -> Option<MusicCommand> {
    match app.state {
        AppState::Browsing => match key.code {
            KeyCode::Enter => if app.items.len() == 0 {
                None
            } else if cursor_is_chosen(app) {
                Some(MusicCommand::PlayConfirmSfx)
            } else {
                Some(MusicCommand::PlayScrollSfx)
            },
            KeyCode::Esc | KeyCode::Home => Some(MusicCommand::PlayCancelSfx),
            KeyCode::Char(c) => if c == 'f' && key.control {
                Some(MusicCommand::PlayScrollSfx)
            } else if c == 'q' {
                Some(MusicCommand::PlayConfirmSfx)
            } else if c == 'p' {
                Some(MusicCommand::TogglePause)
            } else {
                None
            },
            _ => None,
        },
        AppState::AwaitingInput => if !(key.only_control() && key.is_char('v')) && key.code
            == KeyCode::Enter && secret_typed(app) {
            Some(MusicCommand::PlaySecretTrack)
        } else {
            None
        },
        _ => None,
    }
}

/// Whether `after` and `reaction` are what Enter does on the browser screen.
///
/// On a folder that is not the chosen one, Enter chooses it. On the chosen
/// folder, Enter confirms it: if it bears the marks of an instance, it
/// becomes the confirmed folder and the question whether to synchronise it
/// is put (or, where the guided tour was running, the tour ends, is recorded
/// as taken, and an update that was held back is offered first); if it does
/// not, the user is told so.
pub open spec fn entered(app: App, marks: Option<InstanceMarks>, after: App, reaction: Reaction)
    -> bool {
    let folder = app.items[app.selected as int];
    if app.items.len() == 0 {
        after == app && reaction.is_idle()
    } else if !cursor_is_chosen(app) {
        after == (App { selected_path: Some(folder), ..app }) && reaction.is_idle()
    } else if !(marks matches Some(m) && m.is_instance()) {
        &&& after == (App { state: AppState::ConfirmInvalidFolder { path: folder }, ..app })
        &&& reaction.is_idle()
    } else if app.tutorial is None {
        &&& after == (App {
            confirmed_path: Some(folder),
            state: AppState::ConfirmReinit,
            ..app
        })
        &&& reaction.is_idle()
    } else {
        &&& after == (App {
            confirmed_path: Some(folder),
            state: match app.pending_update {
                Some(version) => AppState::ConfirmUpdate { version },
                None => AppState::ConfirmReinit,
            },
            tutorial: None,
            ..app
        })
        &&& reaction.carries(Effect::MarkTutorialCompleted)
    }
}

/// Whether `after` is what Escape does on the browser screen: it drops the
/// choice if there is one; otherwise it goes back to the start screen, with
/// the history pruned to the entries that `flags` say are still there and
/// the row after the last entry highlighted (no row in an empty history).
pub open spec fn escaped(app: App, flags: Option<Vec<bool>>, after: App) -> bool {
    if app.selected_path is Some {
        after == (App { selected_path: None, ..app })
    } else {
        &&& flags matches Some(flags)
        &&& after.history@ == kept(app.history@, flags@)
        &&& after == (App {
            history: after.history,
            history_state: ListState {
                selected: if after.history.len() == 0 {
                    None
                } else {
                    Some(after.history.len())
                },
            },
            mode: RunMode::StartupSelection,
            ..app
        })
    }
}

/// Whether `after` and `reaction` are what a key press does while the
/// folders are being browsed.
pub open spec fn browsed(
    app: App,
    key: KeyPress,
    answer: Answer,
    after: App,
    reaction: Reaction,
) -> bool {
    match key.code {
        KeyCode::Down => after == app.stepped_down() && reaction.is_idle(),
        KeyCode::Up => after == app.stepped_up() && reaction.is_idle(),
        KeyCode::Right => {
            &&& app.went_in(
                match answer.opened {
                    Some(opened) => listing_of(opened),
                    None => None,
                },
                after,
                done_of(reaction),
            )
            &&& reports(reaction, done_of(reaction))
        },
        KeyCode::Left => match parent_of(app.current_dir@) {
            None => after == app && reaction.is_idle(),
            Some(_) => {
                &&& answer.opened matches Some(opened)
                &&& listing_of(opened) matches Some(listing)
                &&& app.went_up(listing, after, done_of(reaction))
                &&& reports(reaction, done_of(reaction))
            },
        },
        KeyCode::Home => {
            &&& answer.opened matches Some(opened)
            &&& listing_of(opened) matches Some(listing)
            &&& app.went_home(listing, after, done_of(reaction))
            &&& reports(reaction, done_of(reaction))
        },
        KeyCode::Enter => entered(app, answer.instance, after, reaction),
        KeyCode::Esc => escaped(app, answer.history, after) && reaction.is_idle(),
        KeyCode::Char(c) => if c == 'f' && key.control {
            &&& after.input@.len() == 0
            &&& after == (App {
                state: AppState::AwaitingInput,
                input: after.input,
                input_error: None,
                ..app
            })
            &&& reaction.carries(Effect::ResetInput)
        } else if c == 'q' {
            after == app && reaction.is_quit()
        } else {
            after == app && reaction.is_idle()
        },
        _ => after == app && reaction.is_idle(),
    }
}

/// Whether `after` and `reaction` are what Enter does in the path field with
/// anything but the secret phrase typed.
///
/// A path that is no directory is refused with a message. A directory that
/// cannot be read ends the loop with the error. A directory that was read is
/// opened in the browser; if it bears the marks of an instance, the user is
/// told that they are inside one and should go up (in a tour that was paused
/// for typing, the tour goes on at that hint instead); otherwise a paused
/// tour goes on at choosing a folder.
pub open spec fn path_entered(app: App, opened: Opened, after: App, reaction: Reaction) -> bool {
    match opened {
        Opened::NotADirectory => {
            &&& after.input_error matches Some(text)
            &&& text@ == PATH_NOT_FOUND@
            &&& after == (App { input_error: after.input_error, ..app })
            &&& reaction.is_idle()
        },
        Opened::Unreadable(e) => after == app && reaction.is_failure(e),
        Opened::Listed { dir, folders, marks } => {
            let open = App { input_error: None, ..app.browser_opened(dir, folders) };
            &&& reaction.is_idle()
            &&& after == if marks.is_instance() {
                if app.tutorial_paused {
                    App {
                        tutorial: Some(crate::app::TutorialState::InsideInstanceFolderHint),
                        tutorial_interactive: false,
                        tutorial_paused: false,
                        ..open
                    }
                } else {
                    App { state: AppState::InsideInstanceFolderError, ..open }
                }
            } else if app.tutorial_paused {
                App {
                    tutorial: Some(crate::app::TutorialState::FileBrowserSelect),
                    tutorial_interactive: true,
                    tutorial_paused: false,
                    ..open
                }
            } else {
                open
            }
        },
    }
}

/// Whether `after` and `reaction` are what a key press does while a path is
/// being typed.
pub open spec fn typed(app: App, key: KeyPress, answer: Answer, after: App, reaction: Reaction)
    -> bool {
    if key.only_control() && key.is_char('v') {
        after == app && reaction.carries(Effect::PasteClipboard)
    } else {
        match key.code {
            KeyCode::Enter => if secret_typed(app) {
                &&& after == (App {
                    gosling_mode: true,
                    state: AppState::Browsing,
                    input_error: None,
                    ..app
                })
                &&& reaction.is_idle()
            } else {
                &&& answer.opened matches Some(opened)
                &&& path_entered(app, opened, after, reaction)
            },
            KeyCode::Esc => {
                &&& after == (App {
                    state: AppState::Browsing,
                    input_error: None,
                    tutorial_paused: false,
                    ..app
                })
                &&& reaction.is_idle()
            },
            _ => after == app && reaction.carries(Effect::EditInput),
        }
    }
}

/// Whether `after` and `reaction` are what a key press does while a branch
/// is being picked from `branches`, with `list_state` the highlighted row and
/// `selected_branch` the branch picked so far.
///
/// Up and Down move the highlight, wrapping round. Enter on a branch that is
/// not the picked one picks it; Enter on the picked branch starts the
/// synchronisation of the confirmed folder with it, unless the application
/// still listens for an earlier synchronisation: then nothing happens.
/// Escape drops the pick, or, with nothing picked, goes back to browsing.
pub open spec fn branch_picked(
    app: App,
    branches: Vec<String>,
    list_state: ListState,
    selected_branch: Option<String>,
    key: KeyPress,
    after: App,
    reaction: Reaction,
) -> bool {
    match key.code {
        KeyCode::Down | KeyCode::Up => {
            &&& reaction.is_idle()
            &&& after == if branches.len() == 0 {
                app
            } else {
                App {
                    state: AppState::BranchSelection {
                        branches,
                        list_state: ListState {
                            selected: Some(
                                if key.code == KeyCode::Down {
                                    App::row_below(list_state.selected, branches.len())
                                } else {
                                    App::row_above(list_state.selected, branches.len())
                                },
                            ),
                        },
                        selected_branch,
                    },
                    ..app
                }
            }
        },
        KeyCode::Enter => match list_state.selected {
            None => after == app && reaction.is_idle(),
            Some(row) => {
                let branch = branches[row as int];
                if selected_branch matches Some(picked) && picked@ == branch@ {
                    if app.jobs.sync {
                        after == app && reaction.is_idle()
                    } else {
                        started_sync(app, branch, after, reaction)
                    }
                } else {
                    &&& after == (App {
                        state: AppState::BranchSelection {
                            branches,
                            list_state,
                            selected_branch: Some(branch),
                        },
                        ..app
                    })
                    &&& reaction.is_idle()
                }
            },
        },
        KeyCode::Esc => {
            &&& reaction.is_idle()
            &&& after == if selected_branch is Some {
                App {
                    state: AppState::BranchSelection {
                        branches,
                        list_state,
                        selected_branch: None,
                    },
                    ..app
                }
            } else {
                App { state: AppState::Browsing, ..app }
            }
        },
        _ => after == app && reaction.is_idle(),
    }
}

/// Whether `after` and `reaction` are what starting the synchronisation of
/// the confirmed folder with `branch` comes to: the progress screen is up,
/// the application listens for the job and remembers what it works on, and
/// the front end is told to start it.
pub open spec fn started_sync(app: App, branch: String, after: App, reaction: Reaction) -> bool {
    &&& after.state matches AppState::Processing { message, progress }
    &&& message@ == INITIALIZING@
    &&& progress == (Ratio { done: 0, total: 1 })
    &&& app.confirmed_path matches Some(path)
    &&& after == (App {
        state: after.state,
        jobs: Jobs { sync: true, ..app.jobs },
        sync_target: Some(SyncTarget { path, branch }),
        ..app
    })
    &&& reaction.carries(Effect::StartSync { path, branch })
}

/// Whether `after` and `reaction` are what a key press does on the browser
/// screen, whatever is open on it.
pub open spec fn browser_handled(
    app: App,
    key: KeyPress,
    answer: Answer,
    after: App,
    reaction: Reaction,
) -> bool {
    match app.state {
        AppState::Browsing => browsed(app, key, answer, after, reaction),
        AppState::ConfirmInvalidFolder { .. } => {
            &&& reaction.is_idle()
            &&& after == if key.code == KeyCode::Enter || key.code == KeyCode::Esc {
                App { state: AppState::Browsing, selected_path: None, ..app }
            } else {
                app
            }
        },
        AppState::InsideInstanceFolderError => if key.code == KeyCode::Left {
            match parent_of(app.current_dir@) {
                None => after == (App { state: AppState::Browsing, ..app }) && reaction.is_idle(),
                Some(_) => {
                    &&& answer.opened matches Some(opened)
                    &&& listing_of(opened) matches Some(listing)
                    &&& reports(reaction, done_of(reaction))
                    &&& match done_of(reaction) {
                        Ok(_) => {
                            &&& after.state == AppState::Browsing
                            &&& app.went_up(
                                listing,
                                App { state: app.state, ..after },
                                done_of(reaction),
                            )
                        },
                        Err(_) => app.went_up(listing, after, done_of(reaction)),
                    }
                },
            }
        } else {
            after == app && reaction.is_idle()
        },
        AppState::AwaitingInput => typed(app, key, answer, after, reaction),
        AppState::ConfirmReinit => if key.is_char('y') || key.is_char('Y') {
            &&& after == (App {
                jobs: Jobs { branch_list: true, ..app.jobs },
                state: AppState::FetchingBranches,
                ..app
            })
            &&& reaction.carries(Effect::StartBranchListing)
        } else if key.is_char('n') || key.is_char('N') || key.code == KeyCode::Esc {
            &&& after == (App { state: AppState::Browsing, confirmed_path: None, ..app })
            &&& reaction.is_idle()
        } else {
            after == app && reaction.is_idle()
        },
        AppState::BranchSelection { branches, list_state, selected_branch } => branch_picked(
            app,
            branches,
            list_state,
            selected_branch,
            key,
            after,
            reaction,
        ),
        AppState::Finished(_) => if key.code == KeyCode::Enter || key.is_char('q') || key.code
            == KeyCode::Esc {
            after == app && reaction.is_quit()
        } else {
            after == app && reaction.is_idle()
        },
        _ => after == app && reaction.is_idle(),
    }
}

/// Whether the key press would start a synchronisation: a branch is being
/// picked, the key is Enter on the branch that is picked already, and no
/// earlier synchronisation is listened for.
pub open spec fn starts_sync(app: App, key: KeyPress) -> bool {
    &&& !app.jobs.sync
    &&& key.code == KeyCode::Enter
    &&& app.state matches AppState::BranchSelection { branches, list_state, selected_branch }
    &&& list_state.selected matches Some(row)
    &&& selected_branch matches Some(picked)
    &&& picked@ == branches[row as int]@
}

/// Whether the key press can be handled: if it would start a
/// synchronisation, there is a confirmed folder to synchronise.
pub open spec fn can_handle(app: App, key: KeyPress) -> bool {
    starts_sync(app, key) ==> app.confirmed_path is Some
}

/// Tests whether the key press can be handled.
pub fn ready(app: &App, key: &KeyPress) -> (ok: bool)
    requires
        app.wf(),
    ensures
        ok == can_handle(*app, *key),
{
    if key.code != KeyCode::Enter || app.jobs.sync {
        return true;
    }
    match &app.state {
        AppState::BranchSelection { branches, list_state, selected_branch } => {
            match list_state.selected {
                Some(row) => match selected_branch {
                    Some(picked) => !(*picked == branches[row]) || app.confirmed_path.is_some(),
                    None => true,
                },
                None => true,
            }
        },
        _ => true,
    }
}

fn on_enter(
    app: &mut App,
    marks: Option<InstanceMarks>,
    music: &mut MusicPlayer,
) -> (reaction: Reaction)
    requires
        old(app).wf(),
        old(app).state is Browsing,
        cursor_is_chosen(*old(app)) ==> marks is Some,
    ensures
        entered(*old(app), marks, *final(app), reaction),
        final(app).wf(),
        old(app).jobs_consistent() ==> final(app).jobs_consistent(),
        old(music).issued(
            browser_sound(
                *old(app),
                KeyPress { code: KeyCode::Enter, control: false, other_modifiers: false },
            ),
            *final(music),
        ),
{
    if app.items.len() == 0 {
        return Reaction::idle();
    }
    if !cursor_on_chosen(app) {
        music.play_scroll_sfx();
        app.selected_path = Some(app.items[app.selected].clone());
        return Reaction::idle();
    }
    music.play_confirm_sfx();
    let valid = match marks {
        Some(m) => is_valid_instance_folder(m),
        None => false,
    };
    if !valid {
        app.state = AppState::ConfirmInvalidFolder { path: app.items[app.selected].clone() };
        return Reaction::idle();
    }
    app.confirmed_path = Some(app.items[app.selected].clone());
    if app.tutorial.is_some() {
        app.tutorial = None;
        app.state = match &app.pending_update {
            Some(version) => AppState::ConfirmUpdate { version: version.clone() },
            None => AppState::ConfirmReinit,
        };
        Reaction::with(Effect::MarkTutorialCompleted)
    } else {
        app.state = AppState::ConfirmReinit;
        Reaction::idle()
    }
}

fn on_escape(app: &mut App, flags: Option<Vec<bool>>)
    requires
        old(app).wf(),
        old(app).state is Browsing,
        old(app).selected_path is None ==> (flags matches Some(f) && f.len() == old(
            app,
        ).history.len()),
    ensures
        escaped(*old(app), flags, *final(app)),
        final(app).wf(),
        old(app).jobs_consistent() ==> final(app).jobs_consistent(),
{
    if app.selected_path.is_some() {
        app.selected_path = None;
    } else {
        match flags {
            Some(f) => {
                let survivors = keep_existing(&app.history, &f);
                app.history = survivors;
                if app.history.len() == 0 {
                    app.history_state.select(None);
                } else {
                    app.history_state.select(Some(app.history.len()));
                }
                app.mode = RunMode::StartupSelection;
            },
            None => {},
        }
    }
}

pub(crate) fn on_ascent(app: &mut App, opened: Option<Opened>) -> (done: Result<(), String>)
    requires
        old(app).wf(),
        parent_of(old(app).current_dir@) is Some ==> (opened matches Some(o) && !(o
            is NotADirectory)),
    ensures
        match parent_of(old(app).current_dir@) {
            None => *final(app) == *old(app) && done is Ok,
            Some(_) => {
                &&& opened matches Some(o)
                &&& listing_of(o) matches Some(listing)
                &&& old(app).went_up(listing, *final(app), done)
            },
        },
        final(app).wf() || done is Err,
        old(app).jobs_consistent() ==> final(app).jobs_consistent(),
{
    match opened {
        None => Ok(()),
        Some(o) => match into_listing(o) {
            None => Ok(()),
            Some(listing) => app.go_up(listing),
        },
    }
}

fn on_browsing(
    app: &mut App,
    key: &KeyPress,
    answer: Answer,
    music: &mut MusicPlayer,
) -> (reaction: Reaction)
    requires
        old(app).wf(),
        old(app).state is Browsing,
        answer.fits(browser_needs(*old(app), *key), old(app).history@.len()),
    ensures
        browsed(*old(app), *key, answer, *final(app), reaction),
        final(app).wf() || reaction.flow is Fail,
        old(app).jobs_consistent() ==> final(app).jobs_consistent(),
        old(music).issued(browser_sound(*old(app), *key), *final(music)),
{
    let Answer { opened, instance, history } = answer;
    match key.code {
        KeyCode::Down => {
            app.next();
            Reaction::idle()
        },
        KeyCode::Up => {
            app.previous();
            Reaction::idle()
        },
        KeyCode::Right => {
            let folders = match opened {
                Some(o) => into_listing(o),
                None => None,
            };
            report(app.go_in(folders))
        },
        KeyCode::Left => report(on_ascent(app, opened)),
        KeyCode::Home => {
            music.play_cancel_sfx();
            match opened {
                Some(o) => match into_listing(o) {
                    Some(listing) => report(app.reset(listing)),
                    None => Reaction::idle(),
                },
                None => Reaction::idle(),
            }
        },
        KeyCode::Enter => {
            let reaction = on_enter(app, instance, music);
            reaction
        },
        KeyCode::Esc => {
            music.play_cancel_sfx();
            on_escape(app, history);
            Reaction::idle()
        },
        KeyCode::Char(c) => {
            if c == 'f' && key.control {
                music.play_scroll_sfx();
                app.state = AppState::AwaitingInput;
                app.input = String::new();
                app.input_error = None;
                Reaction::with(Effect::ResetInput)
            } else if c == 'q' {
                music.play_confirm_sfx();
                Reaction::quit()
            } else if c == 'p' {
                music.toggle_pause();
                Reaction::idle()
            } else {
                Reaction::idle()
            }
        },
        _ => Reaction::idle(),
    }
}

fn on_path_entered(app: &mut App, opened: Opened) -> (reaction: Reaction)
    requires
        old(app).wf(),
        !old(app).waits(),
    ensures
        path_entered(*old(app), opened, *final(app), reaction),
        final(app).wf(),
        old(app).jobs_consistent() ==> final(app).jobs_consistent(),
{
    match opened {
        Opened::NotADirectory => {
            app.input_error = Some(String::from_str(PATH_NOT_FOUND));
            Reaction::idle()
        },
        Opened::Unreadable(e) => Reaction::fail(e),
        Opened::Listed { dir, folders, marks } => {
            app.init_file_browser(dir, folders);
            app.input_error = None;
            if is_valid_instance_folder(marks) {
                if app.tutorial_paused {
                    app.tutorial = Some(crate::app::TutorialState::InsideInstanceFolderHint);
                    app.tutorial_interactive = false;
                    app.tutorial_paused = false;
                } else {
                    app.state = AppState::InsideInstanceFolderError;
                }
            } else if app.tutorial_paused {
                app.tutorial = Some(crate::app::TutorialState::FileBrowserSelect);
                app.tutorial_interactive = true;
                app.tutorial_paused = false;
            }
            Reaction::idle()
        },
    }
}

fn on_typing(
    app: &mut App,
    key: &KeyPress,
    answer: Answer,
    music: &mut MusicPlayer,
) -> (reaction: Reaction)
    requires
        old(app).wf(),
        old(app).state is AwaitingInput,
        answer.fits(browser_needs(*old(app), *key), old(app).history@.len()),
    ensures
        typed(*old(app), *key, answer, *final(app), reaction),
        final(app).wf(),
        old(app).jobs_consistent() ==> final(app).jobs_consistent(),
        old(music).issued(browser_sound(*old(app), *key), *final(music)),
{
    if key.control && !key.other_modifiers && key.pressed('v') {
        return Reaction::with(Effect::PasteClipboard);
    }
    match key.code {
        KeyCode::Enter => {
            if typed_secret(app) {
                app.gosling_mode = true;
                music.play_secret_track();
                app.state = AppState::Browsing;
                app.input_error = None;
                Reaction::idle()
            } else {
                match answer.opened {
                    Some(opened) => on_path_entered(app, opened),
                    None => Reaction::idle(),
                }
            }
        },
        KeyCode::Esc => {
            app.state = AppState::Browsing;
            app.input_error = None;
            app.tutorial_paused = false;
            Reaction::idle()
        },
        _ => Reaction::with(Effect::EditInput),
    }
}

fn on_branches(app: &mut App, key: &KeyPress, answer: Answer) -> (reaction: Reaction)
    requires
        old(app).wf(),
        old(app).state is BranchSelection,
        can_handle(*old(app), *key),
    ensures
        browser_handled(*old(app), *key, answer, *final(app), reaction),
        final(app).wf(),
        old(app).jobs_consistent() ==> final(app).jobs_consistent(),
{
    let mut start: Option<String> = None;
    let mut leave = false;
    let busy = app.jobs.sync;
    match &mut app.state {
        AppState::BranchSelection { branches, list_state, selected_branch } => {
            let count = branches.len();
            match key.code {
                KeyCode::Down => {
                    if count > 0 {
                        let row: usize = match list_state.selected() {
                            None => 0,
                            Some(i) => if i >= count - 1 {
                                0
                            } else {
                                i + 1
                            },
                        };
                        list_state.select(Some(row));
                    }
                },
                KeyCode::Up => {
                    if count > 0 {
                        let row: usize = match list_state.selected() {
                            None => 0,
                            Some(i) => if i == 0 {
                                count - 1
                            } else {
                                i - 1
                            },
                        };
                        list_state.select(Some(row));
                    }
                },
                KeyCode::Enter => {
                    match list_state.selected() {
                        Some(row) => {
                            let same = match selected_branch {
                                Some(picked) => *picked == branches[row],
                                None => false,
                            };
                            if same {
                                if !busy {
                                    start = Some(branches[row].clone());
                                }
                            } else {
                                *selected_branch = Some(branches[row].clone());
                            }
                        },
                        None => {},
                    }
                },
                KeyCode::Esc => {
                    if selected_branch.is_some() {
                        *selected_branch = None;
                    } else {
                        leave = true;
                    }
                },
                _ => {},
            }
        },
        _ => {},
    }
    if leave {
        app.state = AppState::Browsing;
    }
    match start {
        Some(branch) => {
            match &app.confirmed_path {
                Some(path) => {
                    let path = path.clone();
                    app.sync_target = Some(
                        SyncTarget { path: path.clone(), branch: branch.clone() },
                    );
                    app.jobs.sync = true;
                    app.state = AppState::Processing {
                        message: String::from_str(INITIALIZING),
                        progress: Ratio::none(),
                    };
                    Reaction::with(Effect::StartSync { path, branch })
                },
                None => Reaction::idle(),
            }
        },
        None => Reaction::idle(),
    }
}

fn on_invalid_folder(app: &mut App, key: &KeyPress, answer: Answer) -> (reaction: Reaction)
    requires
        old(app).wf(),
        old(app).state is ConfirmInvalidFolder,
    ensures
        browser_handled(*old(app), *key, answer, *final(app), reaction),
        final(app).wf(),
        old(app).jobs_consistent() ==> final(app).jobs_consistent(),
{
    match key.code {
        KeyCode::Enter | KeyCode::Esc => {
            app.state = AppState::Browsing;
            app.selected_path = None;
        },
        _ => {},
    }
    Reaction::idle()
}

fn on_inside_instance(app: &mut App, key: &KeyPress, answer: Answer) -> (reaction: Reaction)
    requires
        old(app).wf(),
        old(app).state is InsideInstanceFolderError,
        answer.fits(browser_needs(*old(app), *key), old(app).history@.len()),
    ensures
        browser_handled(*old(app), *key, answer, *final(app), reaction),
        final(app).wf() || reaction.flow is Fail,
        old(app).jobs_consistent() ==> final(app).jobs_consistent(),
{
    match key.code {
        KeyCode::Left => {
            let done = on_ascent(app, answer.opened);
            let ghost mid = *app;
            if done.is_ok() {
                app.state = AppState::Browsing;
                assert(mid == (App { state: old(app).state, ..*app }));
            }
            report(done)
        },
        _ => Reaction::idle(),
    }
}

fn on_confirm_reinit(app: &mut App, key: &KeyPress, answer: Answer) -> (reaction: Reaction)
    requires
        old(app).wf(),
        old(app).state is ConfirmReinit,
    ensures
        browser_handled(*old(app), *key, answer, *final(app), reaction),
        final(app).wf(),
        old(app).jobs_consistent() ==> final(app).jobs_consistent(),
{
    if key.pressed('y') || key.pressed('Y') {
        app.jobs.branch_list = true;
        app.state = AppState::FetchingBranches;
        Reaction::with(Effect::StartBranchListing)
    } else if key.pressed('n') || key.pressed('N') || key.code == KeyCode::Esc {
        app.state = AppState::Browsing;
        app.confirmed_path = None;
        Reaction::idle()
    } else {
        Reaction::idle()
    }
}

fn on_finished(app: &App, key: &KeyPress, answer: Answer) -> (reaction: Reaction)
    requires
        app.state is Finished,
    ensures
        browser_handled(*app, *key, answer, *app, reaction),
{
    if key.pressed('q') {
        Reaction::quit()
    } else {
        match key.code {
            KeyCode::Enter | KeyCode::Esc => Reaction::quit(),
            _ => Reaction::idle(),
        }
    }
}

/// Handles a key press on the browser screen.
///
/// `answer` holds what [`browser_probe`] asked for. The result says whether
/// the loop goes on and what the front end has to do; the sound the key
/// makes, if any, is queued on `music`.
pub fn handle_file_browser_input(
    app: &mut App,
    key: &KeyPress,
    answer: Answer,
    music: &mut MusicPlayer,
) -> (reaction: Reaction)
    requires
        old(app).wf(),
        can_handle(*old(app), *key),
        answer.fits(browser_needs(*old(app), *key), old(app).history@.len()),
    ensures
        browser_handled(*old(app), *key, answer, *final(app), reaction),
        final(app).wf() || reaction.flow is Fail,
        old(app).jobs_consistent() ==> final(app).jobs_consistent(),
        old(music).issued(browser_sound(*old(app), *key), *final(music)),
{
    match &app.state {
        AppState::Browsing => on_browsing(app, key, answer, music),
        AppState::ConfirmInvalidFolder { .. } => on_invalid_folder(app, key, answer),
        AppState::InsideInstanceFolderError => on_inside_instance(app, key, answer),
        AppState::AwaitingInput => on_typing(app, key, answer, music),
        AppState::ConfirmReinit => on_confirm_reinit(app, key, answer),
        AppState::BranchSelection { .. } => on_branches(app, key, answer),
        AppState::Finished(_) => on_finished(app, key, answer),
        _ => Reaction::idle(),
    }
}

/// The browser starts a synchronisation only from the choice of a branch,
/// while none is listened for.
pub proof fn lemma_browser_starts_sync(
    app: App,
    key: KeyPress,
    answer: Answer,
    after: App,
    reaction: Reaction,
)
    requires
        browser_handled(app, key, answer, after, reaction),
        reaction.effect is StartSync,
    ensures
        !app.jobs.sync,
        after.jobs.sync,
        after.state is Processing,
        reaction.effect matches Effect::StartSync { path, branch } && app.confirmed_path == Some(
            path,
        ) && after.sync_target == Some(SyncTarget { path, branch }),
        after.should_perform_update == app.should_perform_update,
{
}

/// The browser keeps the synchronisation on the confirmed folder: while a
/// synchronisation is awaited it changes nothing, and the synchronisation it
/// starts works on the confirmed folder.
pub proof fn lemma_browser_keeps_target(
    app: App,
    key: KeyPress,
    answer: Answer,
    after: App,
    reaction: Reaction,
)
    requires
        browser_handled(app, key, answer, after, reaction),
        app.jobs_consistent(),
        app.target_confirmed(),
    ensures
        after.target_confirmed(),
        after.jobs.sync == app.jobs.sync || reaction.effect is StartSync,
        app.jobs.sync ==> after == app,
{
}

/// The browser leaves the decision to update as it is.
pub proof fn lemma_browser_keeps_update_flag(
    app: App,
    key: KeyPress,
    answer: Answer,
    after: App,
    reaction: Reaction,
)
    requires
        browser_handled(app, key, answer, after, reaction),
    ensures
        after.should_perform_update == app.should_perform_update,
{
}

} // verus!
