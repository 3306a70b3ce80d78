//! Key presses on the start screen, where a folder used before can be
//! picked again.

use crate::app::{App, AppState, Jobs, ListState, RunMode};
use crate::event::{
    is_valid_instance_folder, Answer, Effect, KeyCode, KeyPress, Needs, Opened, Probe, Reaction,
};
use crate::music::{MusicCommand, MusicPlayer};
use vstd::prelude::*;

verus! {

/// Whether the key is held off: while the state waits for a job, the keys
/// that would lead away from it, Enter and `c`, do nothing.
pub open spec fn is_held_off(app: App, key: KeyPress) -> bool {
    app.waits() && (key.code == KeyCode::Enter || key.is_char('c'))
}

/// What a key press on the start screen needs from the disk: Enter on a
/// history entry needs that folder's marks, Enter on the row after the last
/// entry needs the working directory. A key that is held off needs nothing.
pub open spec fn startup_needs(app: App, key: KeyPress) -> Needs {
    if key.code == KeyCode::Enter && !app.waits() {
        match app.history_state.selected {
            Some(row) => if row < app.history.len() {
                Needs::marks_of(app.history[row as int]@)
            } else {
                Needs::working_directory()
            },
            None => Needs::nothing(),
        }
    } else {
        Needs::nothing()
    }
}

/// Says what [`handle_startup_input`] will need to know.
pub fn startup_probe(app: &App, key: &KeyPress) -> (probe: Probe)
    ensures
        probe@ == startup_needs(*app, *key),
{
    if app.is_waiting() {
        return Probe::nothing();
    }
    match key.code {
        KeyCode::Enter => match app.history_state.selected() {
            Some(row) => {
                if row < app.history.len() {
                    Probe::marks_of(app.history[row].clone())
                } else {
                    Probe::working_directory()
                }
            },
            None => Probe::nothing(),
        },
        _ => Probe::nothing(),
    }
}

/// The sound a key press on the start screen makes, if any: in the hidden
/// mode every key but `p` has its sound; otherwise only Enter has one. `p`
/// pauses and resumes the music. A key that is held off makes no sound.
pub open spec fn startup_sound(app: App, key: KeyPress) -> Option<MusicCommand> {
    if is_held_off(app, key) {
        None
    } else if key.is_char('p') {
        Some(MusicCommand::TogglePause)
    } else if app.gosling_mode {
        Some(MusicCommand::PlaySfx)
    } else if key.code == KeyCode::Enter {
        Some(MusicCommand::PlayConfirmSfx)
    } else {
        None
    }
}

/// Whether `after` and `reaction` are what Enter does on row `row` of the
/// start screen.
///
/// On a history entry that bears the marks of an instance, the entry becomes
/// the confirmed folder and the question whether to synchronise it is put;
/// on one that does not, the user is told so. On the row after the last
/// entry, the browser opens on the working directory; if that cannot be
/// read, the loop ends with the error.
pub open spec fn history_entered(
    app: App,
    row: usize,
    answer: Answer,
    after: App,
    reaction: Reaction,
) -> bool {
    if row < app.history.len() {
        let path = app.history[row as int];
        &&& reaction.is_idle()
        &&& after == if answer.instance matches Some(marks) && marks.is_instance() {
            App {
                confirmed_path: Some(path),
                state: AppState::ConfirmReinit,
                mode: RunMode::FileBrowser,
                ..app
            }
        } else {
            App { state: AppState::ConfirmInvalidFolder { path }, ..app }
        }
    } else {
        match answer.opened {
            Some(Opened::Listed { dir, folders, .. }) => {
                &&& after == app.browser_opened(dir, folders)
                &&& reaction.is_idle()
            },
            Some(Opened::Unreadable(e)) => after == app && reaction.is_failure(e),
            _ => after == app && reaction.is_idle(),
        }
    }
}

/// Whether `after` and `reaction` are what a key press does on the start
/// screen.
///
/// Up and Down move the highlight, Enter takes the highlighted row, `c`
/// fetches the changelog. While the state waits for a job, Enter and `c` are
/// held off: the application stays as it is.
pub open spec fn startup_handled(
    app: App,
    key: KeyPress,
    answer: Answer,
    after: App,
    reaction: Reaction,
) -> bool {
    if is_held_off(app, key) {
        after == app && reaction.is_idle()
    } else {
        startup_moved(app, key, answer, after, reaction)
    }
}

/// Whether `after` and `reaction` are what a key press that is not held off
/// does on the start screen.
pub open spec fn startup_moved(
    app: App,
    key: KeyPress,
    answer: Answer,
    after: App,
    reaction: Reaction,
) -> bool {
    match key.code {
        KeyCode::Up => {
            &&& reaction.is_idle()
            &&& after == (App {
                history_state: ListState {
                    selected: Some(
                        App::history_row_above(app.history_state.selected, app.history.len()),
                    ),
                },
                ..app
            })
        },
        KeyCode::Down => {
            &&& reaction.is_idle()
            &&& after == (App {
                history_state: ListState {
                    selected: Some(
                        App::history_row_below(app.history_state.selected, app.history.len()),
                    ),
                },
                ..app
            })
        },
        KeyCode::Enter => match app.history_state.selected {
            Some(row) => history_entered(app, row, answer, after, reaction),
            None => after == app && reaction.is_idle(),
        },
        KeyCode::Char(c) => if c == 'c' {
            &&& after == (App {
                jobs: Jobs { changelog_fetch: true, ..app.jobs },
                state: AppState::FetchingChangelog,
                ..app
            })
            &&& reaction.carries(Effect::StartChangelogFetch)
        } else {
            after == app && reaction.is_idle()
        },
        _ => after == app && reaction.is_idle(),
    }
}

/// The start screen keeps the synchronisation on the confirmed folder: it
/// starts none, and while one is awaited it leaves the confirmed folder as
/// it is.
pub proof fn lemma_startup_keeps_target(
    app: App,
    key: KeyPress,
    answer: Answer,
    after: App,
    reaction: Reaction,
)
    requires
        startup_handled(app, key, answer, after, reaction),
        app.jobs_consistent(),
        app.target_confirmed(),
    ensures
        after.target_confirmed(),
        after.jobs.sync == app.jobs.sync,
{
}

fn on_history_enter(app: &mut App, row: usize, answer: Answer) -> (reaction: Reaction)
    requires
        old(app).wf(),
        !old(app).waits(),
    ensures
        history_entered(*old(app), row, answer, *final(app), reaction),
        final(app).wf(),
        old(app).jobs_consistent() ==> final(app).jobs_consistent(),
{
    if row < app.history.len() {
        let path = app.history[row].clone();
        let valid = match answer.instance {
            Some(marks) => is_valid_instance_folder(marks),
            None => false,
        };
        if valid {
            app.confirmed_path = Some(path);
            app.state = AppState::ConfirmReinit;
            app.mode = RunMode::FileBrowser;
        } else {
            app.state = AppState::ConfirmInvalidFolder { path };
        }
        Reaction::idle()
    } else {
        match answer.opened {
            Some(Opened::Listed { dir, folders, marks }) => {
                app.init_file_browser(dir, folders);
                Reaction::idle()
            },
            Some(Opened::Unreadable(e)) => Reaction::fail(e),
            _ => Reaction::idle(),
        }
    }
}

fn sound(app: &App, key: &KeyPress, music: &mut MusicPlayer)
    requires
        !is_held_off(*app, *key),
    ensures
        old(music).issued(startup_sound(*app, *key), *final(music)),
{
    if key.pressed('p') {
        music.toggle_pause();
    } else if app.gosling_mode {
        music.play_sfx();
    } else {
        match key.code {
            KeyCode::Enter => {
                music.play_confirm_sfx();
            },
            _ => {},
        }
    }
}

fn on_changelog_key(app: &mut App) -> (reaction: Reaction)
    requires
        old(app).wf(),
        !old(app).waits(),
    ensures
        *final(app) == (App {
            jobs: Jobs { changelog_fetch: true, ..old(app).jobs },
            state: AppState::FetchingChangelog,
            ..*old(app)
        }),
        reaction.carries(Effect::StartChangelogFetch),
        final(app).wf(),
        old(app).jobs_consistent() ==> final(app).jobs_consistent(),
{
    app.jobs.changelog_fetch = true;
    app.state = AppState::FetchingChangelog;
    Reaction::with(Effect::StartChangelogFetch)
}

fn on_move(app: &mut App, key: &KeyPress, answer: Answer) -> (reaction: Reaction)
    requires
        old(app).wf(),
        !is_held_off(*old(app), *key),
    ensures
        startup_moved(*old(app), *key, answer, *final(app), reaction),
        final(app).wf(),
        old(app).jobs_consistent() ==> final(app).jobs_consistent(),
{
    match key.code {
        KeyCode::Up => {
            app.history_previous();
            Reaction::idle()
        },
        KeyCode::Down => {
            app.history_next();
            Reaction::idle()
        },
        KeyCode::Enter => match app.history_state.selected() {
            Some(row) => on_history_enter(app, row, answer),
            None => Reaction::idle(),
        },
        KeyCode::Char(c) => {
            if c == 'c' {
                on_changelog_key(app)
            } else {
                Reaction::idle()
            }
        },
        _ => Reaction::idle(),
    }
}

/// Handles a key press on the start screen.
///
/// `answer` holds what [`startup_probe`] asked for. The result says whether
/// the loop goes on and what the front end has to do; the sound the key
/// makes, if any, is queued on `music`.
pub fn handle_startup_input(
    app: &mut App,
    key: &KeyPress,
    answer: Answer,
    music: &mut MusicPlayer,
) -> (reaction: Reaction)
    requires
        old(app).wf(),
    ensures
        startup_handled(*old(app), *key, answer, *final(app), reaction),
        final(app).wf(),
        old(app).jobs_consistent() ==> final(app).jobs_consistent(),
        old(music).issued(startup_sound(*old(app), *key), *final(music)),
{
    if app.is_waiting() && (key.code == KeyCode::Enter || key.pressed('c')) {
        return Reaction::idle();
    }
    sound(app, key, music);
    on_move(app, key, answer)
}

} // verus!
