//! Key presses while the guided tour is running.
//!
//! The tour walks a new user through the two screens. At some steps it lets
//! the key through to the browser screen and watches what comes of it.

use crate::app::{App, AppState, SyncTarget, TutorialState};
use crate::event::browser::{
    ascent_needs, ascent_probe, browser_handled, browser_needs, browser_probe, browser_sound,
    can_handle, handle_file_browser_input, lemma_browser_keeps_target,
    lemma_browser_keeps_update_flag, lemma_browser_starts_sync, listing_of, on_ascent,
};
use crate::event::{
    is_valid_instance_folder, Answer, Effect, Flow, InstanceMarks, KeyCode, KeyPress, Needs,
    Opened, Probe, Reaction,
};
use crate::music::{MusicCommand, MusicPlayer};
use crate::paths::parent_of;
use vstd::prelude::*;

verus! {

/// Whether the key leaves the tour or pauses the music, whatever the step.
pub open spec fn is_tour_control(key: KeyPress) -> bool {
    key.is_char('s') || key.is_char('q') || key.code == KeyCode::Esc || key.is_char('p')
}

/// Whether the key is one of the four arrows.
pub open spec fn is_arrow(code: KeyCode) -> bool {
    code == KeyCode::Up || code == KeyCode::Down || code == KeyCode::Left || code == KeyCode::Right
}

/// The folder whose marks decide how the tour goes on after Enter at the
/// step of choosing a folder: the folder under the cursor while browsing a
/// folder that is not empty, no folder when a dialog is about to drop the
/// choice, and the chosen folder otherwise.
pub open spec fn choice_after_enter(app: App) -> Option<Seq<char>> {
    if app.state is Browsing && app.items.len() > 0 {
        Some(app.items[app.selected as int]@)
    } else if app.state is ConfirmInvalidFolder {
        None
    } else {
        match app.selected_path {
            Some(path) => Some(path@),
            None => None,
        }
    }
}

/// What a key press needs from the disk while the tour is running.
pub open spec fn tutorial_needs(app: App, key: KeyPress) -> Needs {
    if is_tour_control(key) {
        Needs::nothing()
    } else {
        match app.tutorial {
            Some(TutorialState::StartupMenu) => if key.code == KeyCode::Enter
                && app.tutorial_interactive && !app.waits() {
                Needs::working_directory()
            } else {
                Needs::nothing()
            },
            Some(TutorialState::FileBrowserNav) => if is_arrow(key.code) {
                browser_needs(app, key)
            } else if key.code == KeyCode::Enter {
                if app.tutorial_interactive {
                    Needs::marks_of(app.current_dir@)
                } else {
                    Needs::nothing()
                }
            } else if key.is_char('f') && key.control {
                browser_needs(app, key)
            } else {
                Needs::nothing()
            },
            Some(TutorialState::InsideInstanceFolderHint) => if key.code == KeyCode::Left {
                ascent_needs(app)
            } else {
                Needs::nothing()
            },
            Some(TutorialState::FileBrowserSelect) => if key.code == KeyCode::Up || key.code
                == KeyCode::Down {
                browser_needs(app, key)
            } else if key.code == KeyCode::Enter && app.tutorial_interactive {
                Needs { instance: choice_after_enter(app), ..browser_needs(app, key) }
            } else {
                Needs::nothing()
            },
            Some(TutorialState::FileBrowserConfirm) => if key.code == KeyCode::Enter
                && app.selected_path is Some {
                browser_needs(app, key)
            } else {
                Needs::nothing()
            },
            _ => Needs::nothing(),
        }
    }
}

/// The sound a key press makes while the tour is running, if any.
pub open spec fn tutorial_sound(app: App, key: KeyPress) -> Option<MusicCommand> {
    if key.is_char('s') {
        Some(MusicCommand::PlayConfirmSfx)
    } else if key.is_char('q') || key.code == KeyCode::Esc {
        Some(MusicCommand::PlayCancelSfx)
    } else if key.is_char('p') {
        Some(MusicCommand::TogglePause)
    } else {
        match app.tutorial {
            Some(TutorialState::Welcome) => Some(MusicCommand::PlayConfirmSfx),
            Some(TutorialState::StartupMenu) => if key.code == KeyCode::Enter
                && app.tutorial_interactive && !app.waits() {
                Some(MusicCommand::PlayConfirmSfx)
            } else {
                None
            },
            Some(TutorialState::FileBrowserNav) => if is_arrow(key.code) {
                browser_sound(app, key)
            } else if key.code == KeyCode::Enter {
                if app.tutorial_interactive {
                    Some(MusicCommand::PlayConfirmSfx)
                } else {
                    None
                }
            } else if key.is_char('f') && key.control {
                browser_sound(app, key)
            } else {
                None
            },
            Some(TutorialState::InsideInstanceFolderHint) => if key.code == KeyCode::Left {
                Some(MusicCommand::PlayScrollSfx)
            } else {
                None
            },
            Some(TutorialState::FileBrowserSelect) => if key.code == KeyCode::Up || key.code
                == KeyCode::Down || (key.code == KeyCode::Enter && app.tutorial_interactive) {
                browser_sound(app, key)
            } else {
                None
            },
            Some(TutorialState::InvalidSelectionHint) => if key.code == KeyCode::Enter {
                Some(MusicCommand::PlayCancelSfx)
            } else {
                None
            },
            Some(TutorialState::FileBrowserConfirm) => if key.code == KeyCode::Enter
                && app.selected_path is Some {
                browser_sound(app, key)
            } else {
                None
            },
            None => None,
        }
    }
}

/// The application once the tour has been left: an update that was held
/// back while the tour ran is offered now, unless the state waits for a job
/// or the question whether to install what is missing is up; then it stays
/// held back.
pub open spec fn tour_left(app: App) -> App {
    App {
        tutorial: None,
        state: match app.pending_update {
            Some(version) => if app.waits() || app.state is ConfirmDependencyInstall {
                app.state
            } else {
                AppState::ConfirmUpdate { version }
            },
            None => app.state,
        },
        ..app
    }
}

/// What the tour makes of the browser's reaction: it never lets the browser
/// end the loop by quitting; errors and effects pass through.
pub open spec fn calmed(inner: Reaction) -> Reaction {
    Reaction {
        flow: if inner.flow is Quit {
            Flow::Continue
        } else {
            inner.flow
        },
        effect: inner.effect,
    }
}

/// How the tour goes on after it has let a key through to the browser.
#[derive(Debug, Clone, Copy, PartialEq, Eq, Structural)]
pub enum Follow {
    /// The tour stays where it is.
    Stay,
    /// The user has tried the keys: the tour accepts Enter from now on.
    Unlock,
    /// The user is typing a path: the tour waits.
    Pause,
    /// The user has pressed Enter on a folder: the tour goes on according
    /// to the marks of the chosen folder.
    Judge,
}

/// The application after the tour has followed up on a key it let through,
/// where `mid` is what the browser left and `marks` are the marks of the
/// chosen folder.
pub open spec fn followed(mid: App, follow: Follow, marks: Option<InstanceMarks>) -> App {
    match follow {
        Follow::Stay => mid,
        Follow::Unlock => App { tutorial_interactive: true, ..mid },
        Follow::Pause => App { tutorial_paused: true, ..mid },
        Follow::Judge => if mid.selected_path is None {
            mid
        } else if marks matches Some(m) && m.is_instance() {
            App { tutorial: Some(TutorialState::FileBrowserConfirm), ..mid }
        } else {
            App {
                tutorial: Some(TutorialState::InvalidSelectionHint),
                tutorial_interactive: false,
                ..mid
            }
        },
    }
}

/// Whether `after` and `reaction` are what comes of letting the key through
/// to the browser and following up as `follow` says: the browser handles the
/// key; if that fails, its error ends the loop and the tour does nothing
/// more; otherwise the tour follows up, and the loop goes on even where the
/// browser would have quit.
pub open spec fn let_through(
    app: App,
    key: KeyPress,
    answer: Answer,
    follow: Follow,
    after: App,
    reaction: Reaction,
) -> bool {
    exists|mid: App, inner: Reaction|
        {
            &&& #[trigger] browser_handled(app, key, answer, mid, inner)
            &&& reaction == calmed(inner)
            &&& after == if inner.flow is Fail {
                mid
            } else {
                followed(mid, follow, answer.instance)
            }
        }
}

/// Whether `after` and `reaction` are what a key press does at the tour's
/// step on the start screen.
pub open spec fn at_startup_menu(
    app: App,
    key: KeyPress,
    answer: Answer,
    after: App,
    reaction: Reaction,
) -> bool {
    if key.is_char('h') {
        &&& after == (App { tutorial_step1_expanded: !app.tutorial_step1_expanded, ..app })
        &&& reaction.is_idle()
    } else if key.code == KeyCode::Down || key.code == KeyCode::Up {
        &&& after == (App {
            history_state: crate::app::ListState {
                selected: Some(
                    App::history_row_below(app.history_state.selected, app.history.len()),
                ),
            },
            tutorial_interactive: true,
            ..app
        })
        &&& reaction.is_idle()
    } else if key.code == KeyCode::Enter && app.tutorial_interactive && !app.waits() {
        match answer.opened {
            Some(Opened::Listed { dir, folders, .. }) => {
                &&& after == (App {
                    tutorial: Some(TutorialState::FileBrowserNav),
                    tutorial_interactive: false,
                    ..app.browser_opened(dir, folders)
                })
                &&& reaction.is_idle()
            },
            Some(Opened::Unreadable(e)) => after == app && reaction.is_failure(e),
            _ => after == app && reaction.is_idle(),
        }
    } else {
        after == app && reaction.is_idle()
    }
}

/// Whether `after` and `reaction` are what a key press does at the step the
/// tour is at, for a key that neither leaves the tour nor pauses the music.
pub open spec fn at_step(
    app: App,
    step: TutorialState,
    key: KeyPress,
    answer: Answer,
    after: App,
    reaction: Reaction,
) -> bool {
    match step {
        TutorialState::Welcome => {
            &&& after == (App { tutorial: Some(TutorialState::StartupMenu), ..app })
            &&& reaction.is_idle()
        },
        TutorialState::StartupMenu => at_startup_menu(app, key, answer, after, reaction),
        TutorialState::FileBrowserNav => if is_arrow(key.code) {
            let_through(app, key, answer, Follow::Unlock, after, reaction)
        } else if key.code == KeyCode::Enter {
            &&& reaction.is_idle()
            &&& after == if !app.tutorial_interactive {
                app
            } else if answer.instance matches Some(m) && m.is_instance() {
                App {
                    tutorial: Some(TutorialState::InsideInstanceFolderHint),
                    tutorial_interactive: false,
                    ..app
                }
            } else {
                App { tutorial: Some(TutorialState::FileBrowserSelect), ..app }
            }
        } else if key.is_char('f') && key.control {
            let_through(app, key, answer, Follow::Pause, after, reaction)
        } else {
            after == app && reaction.is_idle()
        },
        TutorialState::InsideInstanceFolderHint => if key.code == KeyCode::Left {
            match parent_of(app.current_dir@) {
                None => {
                    &&& after == (App {
                        tutorial: Some(TutorialState::FileBrowserNav),
                        tutorial_interactive: true,
                        ..app
                    })
                    &&& reaction.is_idle()
                },
                Some(_) => {
                    &&& answer.opened matches Some(opened)
                    &&& listing_of(opened) matches Some(listing)
                    &&& match reaction.flow {
                        Flow::Fail(e) => {
                            &&& app.went_up(listing, after, Err(e))
                            &&& reaction.is_failure(e)
                        },
                        _ => {
                            &&& reaction.is_idle()
                            &&& after.tutorial == Some(TutorialState::FileBrowserNav)
                            &&& after.tutorial_interactive
                            &&& app.went_up(
                                listing,
                                App {
                                    tutorial: app.tutorial,
                                    tutorial_interactive: app.tutorial_interactive,
                                    ..after
                                },
                                Ok(()),
                            )
                        },
                    }
                },
            }
        } else {
            after == app && reaction.is_idle()
        },
        TutorialState::FileBrowserSelect => if key.code == KeyCode::Up || key.code
            == KeyCode::Down {
            let_through(app, key, answer, Follow::Stay, after, reaction)
        } else if key.code == KeyCode::Enter && app.tutorial_interactive {
            let_through(app, key, answer, Follow::Judge, after, reaction)
        } else {
            after == app && reaction.is_idle()
        },
        TutorialState::InvalidSelectionHint => if key.code == KeyCode::Enter {
            &&& after == (App {
                selected_path: None,
                tutorial: Some(TutorialState::FileBrowserSelect),
                tutorial_interactive: true,
                ..app
            })
            &&& reaction.is_idle()
        } else {
            after == app && reaction.is_idle()
        },
        TutorialState::FileBrowserConfirm => if key.code == KeyCode::Enter && app.selected_path
            is Some {
            let_through(app, key, answer, Follow::Stay, after, reaction)
        } else {
            after == app && reaction.is_idle()
        },
    }
}

/// Whether `after` and `reaction` are what a key press does while the tour
/// is running.
///
/// `s` skips the tour and records it as taken; `q` and Escape leave it
/// without a record; `p` pauses and resumes the music. Every other key goes
/// to the step the tour is at. While the state waits for a job, the tour
/// goes on but the state stays: the browser is not opened, and an update
/// that was held back is not offered yet.
pub open spec fn tutorial_handled(
    app: App,
    key: KeyPress,
    answer: Answer,
    after: App,
    reaction: Reaction,
) -> bool {
    if key.is_char('s') {
        &&& after == (App { tutorial_interactive: true, ..tour_left(app) })
        &&& reaction.carries(Effect::MarkTutorialCompleted)
    } else if key.is_char('q') || key.code == KeyCode::Esc {
        after == tour_left(app) && reaction.is_idle()
    } else if key.is_char('p') {
        after == app && reaction.is_idle()
    } else {
        match app.tutorial {
            Some(step) => at_step(app, step, key, answer, after, reaction),
            None => after == app && reaction.is_idle(),
        }
    }
}

/// Says what [`handle_tutorial_input`] will need to know.
pub fn tutorial_probe(app: &App, key: &KeyPress) -> (probe: Probe)
    requires
        app.wf(),
    ensures
        probe@ == tutorial_needs(*app, *key),
{
    if key.pressed('s') || key.pressed('q') || key.code == KeyCode::Esc || key.pressed('p') {
        return Probe::nothing();
    }
    let arrow = key.code == KeyCode::Up || key.code == KeyCode::Down || key.code == KeyCode::Left
        || key.code == KeyCode::Right;
    match app.tutorial {
        Some(TutorialState::StartupMenu) => {
            if key.code == KeyCode::Enter && app.tutorial_interactive && !app.is_waiting() {
                Probe::working_directory()
            } else {
                Probe::nothing()
            }
        },
        Some(TutorialState::FileBrowserNav) => {
            if arrow {
                browser_probe(app, key)
            } else if key.code == KeyCode::Enter {
                if app.tutorial_interactive {
                    Probe::marks_of(app.current_dir.clone())
                } else {
                    Probe::nothing()
                }
            } else if key.pressed('f') && key.control {
                browser_probe(app, key)
            } else {
                Probe::nothing()
            }
        },
        Some(TutorialState::InsideInstanceFolderHint) => {
            if key.code == KeyCode::Left {
                ascent_probe(app)
            } else {
                Probe::nothing()
            }
        },
        Some(TutorialState::FileBrowserSelect) => {
            if key.code == KeyCode::Up || key.code == KeyCode::Down {
                browser_probe(app, key)
            } else if key.code == KeyCode::Enter && app.tutorial_interactive {
                let mut probe = browser_probe(app, key);
                let browsing = match &app.state {
                    AppState::Browsing => true,
                    _ => false,
                };
                let dropping = match &app.state {
                    AppState::ConfirmInvalidFolder { .. } => true,
                    _ => false,
                };
                probe.instance = if browsing && app.items.len() > 0 {
                    Some(app.items[app.selected].clone())
                } else if dropping {
                    None
                } else {
                    match &app.selected_path {
                        Some(path) => Some(path.clone()),
                        None => None,
                    }
                };
                probe
            } else {
                Probe::nothing()
            }
        },
        Some(TutorialState::FileBrowserConfirm) => {
            if key.code == KeyCode::Enter && app.selected_path.is_some() {
                browser_probe(app, key)
            } else {
                Probe::nothing()
            }
        },
        _ => Probe::nothing(),
    }
}

fn leave_tour(app: &mut App)
    ensures
        *final(app) == tour_left(*old(app)),
        old(app).wf() ==> final(app).wf(),
        old(app).jobs_consistent() ==> final(app).jobs_consistent(),
{
    app.tutorial = None;
    let in_the_way = app.is_waiting() || match &app.state {
        AppState::ConfirmDependencyInstall { .. } => true,
        _ => false,
    };
    if !in_the_way {
        match &app.pending_update {
            Some(version) => {
                app.state = AppState::ConfirmUpdate { version: version.clone() };
            },
            None => {},
        }
    }
}

fn through(
    app: &mut App,
    key: &KeyPress,
    answer: Answer,
    follow: Follow,
    music: &mut MusicPlayer,
) -> (reaction: Reaction)
    requires
        old(app).wf(),
        can_handle(*old(app), *key),
        answer.fits(browser_needs(*old(app), *key), old(app).history@.len()),
    ensures
        let_through(*old(app), *key, answer, follow, *final(app), reaction),
        !(reaction.flow is Quit),
        final(app).wf() || reaction.flow is Fail,
        old(app).jobs_consistent() ==> final(app).jobs_consistent(),
        old(music).issued(browser_sound(*old(app), *key), *final(music)),
{
    let marks = answer.instance;
    let inner = handle_file_browser_input(app, key, answer, music);
    let ghost mid = *app;
    let Reaction { flow, effect } = inner;
    match flow {
        Flow::Fail(e) => {
            let reaction = Reaction { flow: Flow::Fail(e), effect };
            assert(reaction == calmed(inner));
            reaction
        },
        _ => {
            match follow {
                Follow::Stay => {},
                Follow::Unlock => {
                    app.tutorial_interactive = true;
                },
                Follow::Pause => {
                    app.tutorial_paused = true;
                },
                Follow::Judge => {
                    if app.selected_path.is_some() {
                        let valid = match marks {
                            Some(m) => is_valid_instance_folder(m),
                            None => false,
                        };
                        if valid {
                            app.tutorial = Some(TutorialState::FileBrowserConfirm);
                        } else {
                            app.tutorial = Some(TutorialState::InvalidSelectionHint);
                            app.tutorial_interactive = false;
                        }
                    }
                },
            }
            let reaction = Reaction { flow: Flow::Continue, effect };
            assert(reaction == calmed(inner));
            assert(*app == followed(mid, follow, answer.instance));
            reaction
        },
    }
}

fn on_startup_menu(
    app: &mut App,
    key: &KeyPress,
    answer: Answer,
    music: &mut MusicPlayer,
) -> (reaction: Reaction)
    requires
        old(app).wf(),
        old(app).tutorial == Some(TutorialState::StartupMenu),
        !is_tour_control(*key),
    ensures
        at_startup_menu(*old(app), *key, answer, *final(app), reaction),
        !(reaction.flow is Quit),
        final(app).wf(),
        old(app).jobs_consistent() ==> final(app).jobs_consistent(),
        old(music).issued(tutorial_sound(*old(app), *key), *final(music)),
{
    if key.pressed('h') {
        app.tutorial_step1_expanded = !app.tutorial_step1_expanded;
        Reaction::idle()
    } else if key.code == KeyCode::Down || key.code == KeyCode::Up {
        app.history_next();
        app.tutorial_interactive = true;
        Reaction::idle()
    } else if key.code == KeyCode::Enter && app.tutorial_interactive && !app.is_waiting() {
        music.play_confirm_sfx();
        match answer.opened {
            Some(Opened::Listed { dir, folders, marks }) => {
                app.init_file_browser(dir, folders);
                app.tutorial = Some(TutorialState::FileBrowserNav);
                app.tutorial_interactive = false;
                Reaction::idle()
            },
            Some(Opened::Unreadable(e)) => Reaction::fail(e),
            _ => Reaction::idle(),
        }
    } else {
        Reaction::idle()
    }
}

fn on_instance_hint(
    app: &mut App,
    key: &KeyPress,
    answer: Answer,
    music: &mut MusicPlayer,
) -> (reaction: Reaction)
    requires
        old(app).wf(),
        old(app).tutorial == Some(TutorialState::InsideInstanceFolderHint),
        !is_tour_control(*key),
        answer.fits(tutorial_needs(*old(app), *key), old(app).history@.len()),
    ensures
        at_step(
            *old(app),
            TutorialState::InsideInstanceFolderHint,
            *key,
            answer,
            *final(app),
            reaction,
        ),
        !(reaction.flow is Quit),
        final(app).wf() || reaction.flow is Fail,
        old(app).jobs_consistent() ==> final(app).jobs_consistent(),
        old(music).issued(tutorial_sound(*old(app), *key), *final(music)),
{
    if key.code == KeyCode::Left {
        music.play_scroll_sfx();
        let done = on_ascent(app, answer.opened);
        let ghost mid = *app;
        match done {
            Ok(_) => {
                app.tutorial = Some(TutorialState::FileBrowserNav);
                app.tutorial_interactive = true;
                assert(mid == (App {
                    tutorial: old(app).tutorial,
                    tutorial_interactive: old(app).tutorial_interactive,
                    ..*app
                }));
                Reaction::idle()
            },
            Err(e) => Reaction::fail(e),
        }
    } else {
        Reaction::idle()
    }
}

fn on_step(
    app: &mut App,
    step: TutorialState,
    key: &KeyPress,
    answer: Answer,
    music: &mut MusicPlayer,
) -> (reaction: Reaction)
    requires
        old(app).wf(),
        can_handle(*old(app), *key),
        old(app).tutorial == Some(step),
        !is_tour_control(*key),
        answer.fits(tutorial_needs(*old(app), *key), old(app).history@.len()),
    ensures
        at_step(*old(app), step, *key, answer, *final(app), reaction),
        !(reaction.flow is Quit),
        final(app).wf() || reaction.flow is Fail,
        old(app).jobs_consistent() ==> final(app).jobs_consistent(),
        old(music).issued(tutorial_sound(*old(app), *key), *final(music)),
{
    let arrow = key.code == KeyCode::Up || key.code == KeyCode::Down || key.code == KeyCode::Left
        || key.code == KeyCode::Right;
    match step {
        TutorialState::Welcome => {
            music.play_confirm_sfx();
            app.tutorial = Some(TutorialState::StartupMenu);
            Reaction::idle()
        },
        TutorialState::StartupMenu => on_startup_menu(app, key, answer, music),
        TutorialState::FileBrowserNav => {
            if arrow {
                through(app, key, answer, Follow::Unlock, music)
            } else if key.code == KeyCode::Enter {
                if app.tutorial_interactive {
                    music.play_confirm_sfx();
                    let valid = match answer.instance {
                        Some(m) => is_valid_instance_folder(m),
                        None => false,
                    };
                    if valid {
                        app.tutorial = Some(TutorialState::InsideInstanceFolderHint);
                        app.tutorial_interactive = false;
                    } else {
                        app.tutorial = Some(TutorialState::FileBrowserSelect);
                    }
                }
                Reaction::idle()
            } else if key.pressed('f') && key.control {
                through(app, key, answer, Follow::Pause, music)
            } else {
                Reaction::idle()
            }
        },
        TutorialState::InsideInstanceFolderHint => on_instance_hint(app, key, answer, music),
        TutorialState::FileBrowserSelect => {
            if key.code == KeyCode::Up || key.code == KeyCode::Down {
                through(app, key, answer, Follow::Stay, music)
            } else if key.code == KeyCode::Enter && app.tutorial_interactive {
                through(app, key, answer, Follow::Judge, music)
            } else {
                Reaction::idle()
            }
        },
        TutorialState::InvalidSelectionHint => {
            if key.code == KeyCode::Enter {
                music.play_cancel_sfx();
                app.selected_path = None;
                app.tutorial = Some(TutorialState::FileBrowserSelect);
                app.tutorial_interactive = true;
            }
            Reaction::idle()
        },
        TutorialState::FileBrowserConfirm => {
            if key.code == KeyCode::Enter && app.selected_path.is_some() {
                through(app, key, answer, Follow::Stay, music)
            } else {
                Reaction::idle()
            }
        },
    }
}

/// Handles a key press while the guided tour is running.
///
/// `answer` holds what [`tutorial_probe`] asked for. The result says whether
/// the loop goes on and what the front end has to do; the sound the key
/// makes, if any, is queued on `music`.
pub fn handle_tutorial_input(
    app: &mut App,
    key: &KeyPress,
    answer: Answer,
    music: &mut MusicPlayer,
) -> (reaction: Reaction)
    requires
        old(app).wf(),
        can_handle(*old(app), *key),
        answer.fits(tutorial_needs(*old(app), *key), old(app).history@.len()),
    ensures
        tutorial_handled(*old(app), *key, answer, *final(app), reaction),
        final(app).wf() || reaction.flow is Fail,
        old(app).jobs_consistent() ==> final(app).jobs_consistent(),
        old(music).issued(tutorial_sound(*old(app), *key), *final(music)),
        !(reaction.flow is Quit),
{
    if key.pressed('s') {
        music.play_confirm_sfx();
        leave_tour(app);
        app.tutorial_interactive = true;
        return Reaction::with(Effect::MarkTutorialCompleted);
    }
    if key.pressed('q') || key.code == KeyCode::Esc {
        music.play_cancel_sfx();
        leave_tour(app);
        return Reaction::idle();
    }
    if key.pressed('p') {
        music.toggle_pause();
        return Reaction::idle();
    }
    match app.tutorial {
        Some(step) => on_step(app, step, key, answer, music),
        None => Reaction::idle(),
    }
}

/// While the tour runs, a synchronisation is started only by the browser.
pub proof fn lemma_tour_starts_sync_like_browser(
    app: App,
    key: KeyPress,
    answer: Answer,
    after: App,
    reaction: Reaction,
)
    requires
        tutorial_handled(app, key, answer, after, reaction),
        reaction.effect is StartSync,
    ensures
        !app.jobs.sync,
        after.jobs.sync,
        after.state is Processing,
        reaction.effect matches Effect::StartSync { path, branch } && app.confirmed_path == Some(
            path,
        ) && after.sync_target == Some(SyncTarget { path, branch }),
{
    if !is_tour_control(key) && app.tutorial is Some {
        let step = app.tutorial->0;
        assert(at_step(app, step, key, answer, after, reaction));
        let follow = choose|follow: Follow| let_through(app, key, answer, follow, after, reaction);
        if let_through(app, key, answer, follow, after, reaction) {
            let (mid, inner) = choose|mid: App, inner: Reaction|
                {
                    &&& #[trigger] browser_handled(app, key, answer, mid, inner)
                    &&& reaction == calmed(inner)
                    &&& after == if inner.flow is Fail {
                        mid
                    } else {
                        followed(mid, follow, answer.instance)
                    }
                };
            lemma_browser_starts_sync(app, key, answer, mid, inner);
        }
    }
}

/// The tour keeps the synchronisation on the confirmed folder.
pub proof fn lemma_tour_keeps_target(
    app: App,
    key: KeyPress,
    answer: Answer,
    after: App,
    reaction: Reaction,
)
    requires
        tutorial_handled(app, key, answer, after, reaction),
        app.jobs_consistent(),
        app.target_confirmed(),
    ensures
        after.target_confirmed(),
{
    if !is_tour_control(key) && app.tutorial is Some {
        let step = app.tutorial->0;
        assert(at_step(app, step, key, answer, after, reaction));
        let follow = choose|follow: Follow| let_through(app, key, answer, follow, after, reaction);
        if let_through(app, key, answer, follow, after, reaction) {
            let (mid, inner) = choose|mid: App, inner: Reaction|
                {
                    &&& #[trigger] browser_handled(app, key, answer, mid, inner)
                    &&& reaction == calmed(inner)
                    &&& after == if inner.flow is Fail {
                        mid
                    } else {
                        followed(mid, follow, answer.instance)
                    }
                };
            lemma_browser_keeps_target(app, key, answer, mid, inner);
        }
    }
}

/// While the tour runs, the decision to update stays as it is.
pub proof fn lemma_tour_keeps_update_flag(
    app: App,
    key: KeyPress,
    answer: Answer,
    after: App,
    reaction: Reaction,
)
    requires
        tutorial_handled(app, key, answer, after, reaction),
    ensures
        after.should_perform_update == app.should_perform_update,
{
    if !is_tour_control(key) && app.tutorial is Some {
        let step = app.tutorial->0;
        assert(at_step(app, step, key, answer, after, reaction));
        let follow = choose|follow: Follow| let_through(app, key, answer, follow, after, reaction);
        if let_through(app, key, answer, follow, after, reaction) {
            let (mid, inner) = choose|mid: App, inner: Reaction|
                {
                    &&& #[trigger] browser_handled(app, key, answer, mid, inner)
                    &&& reaction == calmed(inner)
                    &&& after == if inner.flow is Fail {
                        mid
                    } else {
                        followed(mid, follow, answer.instance)
                    }
                };
            lemma_browser_keeps_update_flag(app, key, answer, mid, inner);
        }
    }
}

} // verus!
