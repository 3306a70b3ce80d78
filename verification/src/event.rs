//! The control loop's decisions.
//!
//! The loop itself (drawing, waiting for keys, starting workers, reading the
//! disk) lives with the front end. What it decides lives here: which state
//! follows a message from a job, what a key press does, and what has to be
//! looked up on disk before a key press can be handled.
//!
//! A key press is handled in two steps. [`probe_for`] says what the handler
//! will need to know; the front end finds that out and hands it over as an
//! [`Answer`]; [`handle_key`] then makes the move and says what the front end
//! has to do next.

use crate::app::{App, AppState, Jobs, RunMode, SyncTarget};
use crate::event::browser::{
    browser_handled, browser_needs, browser_probe, browser_sound, can_handle,
    handle_file_browser_input, lemma_browser_keeps_target, ready,
};
use crate::event::startup::{
    handle_startup_input, lemma_startup_keeps_target, startup_handled, startup_needs,
    startup_probe, startup_sound,
};
use crate::event::tutorial::{
    handle_tutorial_input, lemma_tour_keeps_target, lemma_tour_keeps_update_flag,
    lemma_tour_starts_sync_like_browser,
    tutorial_handled, tutorial_needs, tutorial_probe, tutorial_sound,
};
use crate::music::{MusicCommand, MusicPlayer};
use vstd::prelude::*;

pub mod browser;
pub mod jobs;
pub mod startup;
pub mod tutorial;

verus! {

/// The keys the application tells apart.
#[derive(Debug, Clone, Copy, PartialEq, Eq, Structural)]
pub enum KeyCode {
    Char(char),
    Enter,
    Esc,
    Up,
    Down,
    Left,
    Right,
    Home,
    Other,
}

/// One key press: the key, whether Control was held, and whether any other
/// modifier was.
#[derive(Debug, Clone, Copy, PartialEq, Eq, Structural)]
pub struct KeyPress {
    pub code: KeyCode,
    pub control: bool,
    pub other_modifiers: bool,
}

impl KeyPress {
    /// Whether the key is the character `c`, whatever the modifiers.
    pub open spec fn is_char(self, c: char) -> bool {
        self.code == KeyCode::Char(c)
    }

    /// Whether Control, and nothing but Control, was held.
    pub open spec fn only_control(self) -> bool {
        self.control && !self.other_modifiers
    }

    /// A key pressed with no modifier held.
    pub fn plain(code: KeyCode) -> (key: KeyPress)
        ensures
            key == (KeyPress { code, control: false, other_modifiers: false }),
    {
        KeyPress { code, control: false, other_modifiers: false }
    }

    /// A key pressed with Control, and only Control, held.
    pub fn with_control(code: KeyCode) -> (key: KeyPress)
        ensures
            key == (KeyPress { code, control: true, other_modifiers: false }),
    {
        KeyPress { code, control: true, other_modifiers: false }
    }

    /// Tests whether the key is the character `c`.
    pub fn pressed(&self, c: char) -> (hit: bool)
        ensures
            hit == self.is_char(c),
    {
        match self.code {
            KeyCode::Char(k) => k == c,
            _ => false,
        }
    }
}

/// How a directory is to be looked at.
#[derive(Debug, Clone, Copy, PartialEq, Eq, Structural)]
pub enum Opening {
    /// Read its sub-folders.
    List,
    /// If it is a directory, read its sub-folders.
    IfDirectory,
    /// If it exists and is a directory, read its sub-folders, then see
    /// whether it bears the marks of an instance.
    Typed,
}

/// A directory to look at.
#[derive(Debug, Clone, PartialEq, Eq)]
pub enum OpenRequest {
    Directory { dir: String, how: Opening },
    /// The directory the process runs in, whose sub-folders are to be read.
    WorkingDirectory,
}

/// What a key press needs from the disk before it can be handled.
#[derive(Debug, Clone, PartialEq, Eq)]
pub struct Probe {
    /// A directory to open.
    pub open: Option<OpenRequest>,
    /// A directory to inspect for the marks of an instance.
    pub instance: Option<String>,
    /// Whether each history entry is to be checked for still being a
    /// directory.
    pub history: bool,
}

/// The contents of a [`Probe`], with paths as sequences of characters.
pub struct Needs {
    /// The directory to open, and how; no directory stands for the working
    /// directory.
    pub open: Option<(Option<Seq<char>>, Opening)>,
    pub instance: Option<Seq<char>>,
    pub history: bool,
}

impl Needs {
    /// Nothing is needed.
    pub open spec fn nothing() -> Needs {
        Needs { open: None, instance: None, history: false }
    }

    /// `dir` is to be opened in the given way.
    pub open spec fn directory(dir: Seq<char>, how: Opening) -> Needs {
        Needs { open: Some((Some(dir), how)), instance: None, history: false }
    }

    /// The working directory is to be opened.
    pub open spec fn working_directory() -> Needs {
        Needs { open: Some((None, Opening::List)), instance: None, history: false }
    }

    /// `dir` is to be inspected for the marks of an instance.
    pub open spec fn marks_of(dir: Seq<char>) -> Needs {
        Needs { open: None, instance: Some(dir), history: false }
    }

    /// The history entries are to be checked.
    pub open spec fn surviving_history() -> Needs {
        Needs { open: None, instance: None, history: true }
    }
}

impl View for Probe {
    type V = Needs;

    open spec fn view(&self) -> Needs {
        Needs {
            open: match self.open {
                None => None,
                Some(OpenRequest::Directory { dir, how }) => Some((Some(dir@), how)),
                Some(OpenRequest::WorkingDirectory) => Some((None, Opening::List)),
            },
            instance: match self.instance {
                None => None,
                Some(dir) => Some(dir@),
            },
            history: self.history,
        }
    }
}

impl Probe {
    /// Nothing is needed.
    pub fn nothing() -> (probe: Probe)
        ensures
            probe@ == Needs::nothing(),
    {
        Probe { open: None, instance: None, history: false }
    }

    /// `dir` is to be opened in the given way.
    pub fn directory(dir: String, how: Opening) -> (probe: Probe)
        ensures
            probe@ == Needs::directory(dir@, how),
    {
        Probe { open: Some(OpenRequest::Directory { dir, how }), instance: None, history: false }
    }

    /// The working directory is to be opened.
    pub fn working_directory() -> (probe: Probe)
        ensures
            probe@ == Needs::working_directory(),
    {
        Probe { open: Some(OpenRequest::WorkingDirectory), instance: None, history: false }
    }

    /// `dir` is to be inspected for the marks of an instance.
    pub fn marks_of(dir: String) -> (probe: Probe)
        ensures
            probe@ == Needs::marks_of(dir@),
    {
        Probe { open: None, instance: Some(dir), history: false }
    }

    /// The history entries are to be checked.
    pub fn surviving_history() -> (probe: Probe)
        ensures
            probe@ == Needs::surviving_history(),
    {
        Probe { open: None, instance: None, history: true }
    }
}

/// The two folders that mark a directory as an instance.
#[derive(Debug, Clone, Copy, PartialEq, Eq, Structural)]
pub struct InstanceMarks {
    pub has_mods: bool,
    pub has_config: bool,
}

/// Whether a directory with these marks is an instance: it has both a mods
/// folder and a config folder.
pub fn is_valid_instance_folder(marks: InstanceMarks) -> (valid: bool)
    ensures
        valid == marks.is_instance(),
{
    marks.has_mods && marks.has_config
}

impl InstanceMarks {
    /// Both folders are there.
    pub open spec fn is_instance(self) -> bool {
        self.has_mods && self.has_config
    }
}

/// What came of opening a directory.
#[derive(Debug, Clone, PartialEq, Eq)]
pub enum Opened {
    /// It does not exist or is not a directory.
    NotADirectory,
    /// It (or, for the working directory, its name) could not be read; the
    /// text says why.
    Unreadable(String),
    /// It was read: its path, its sub-folders in order, and, where asked
    /// for, its marks.
    Listed { dir: String, folders: Vec<String>, marks: InstanceMarks },
}

/// What the front end found out for one key press.
#[derive(Debug, Clone, PartialEq, Eq)]
pub struct Answer {
    pub opened: Option<Opened>,
    pub instance: Option<InstanceMarks>,
    /// For each history entry, in order, whether it still is a directory.
    pub history: Option<Vec<bool>>,
}

impl Answer {
    /// An answer to a probe that asked nothing.
    pub fn nothing() -> (answer: Answer)
        ensures
            answer.opened is None,
            answer.instance is None,
            answer.history is None,
    {
        Answer { opened: None, instance: None, history: None }
    }

    /// Tests whether this answers `probe`, for an application with `entries`
    /// history entries.
    pub fn answers(&self, probe: &Probe, entries: usize) -> (fits: bool)
        ensures
            fits == self.fits(probe@, entries as nat),
    {
        let open_fits = match &probe.open {
            None => true,
            Some(request) => match &self.opened {
                None => false,
                Some(opened) => match request {
                    OpenRequest::WorkingDirectory => match opened {
                        Opened::NotADirectory => false,
                        _ => true,
                    },
                    OpenRequest::Directory { dir, how } => match opened {
                        Opened::NotADirectory => match how {
                            Opening::List => false,
                            _ => true,
                        },
                        Opened::Unreadable(_) => true,
                        Opened::Listed { dir: found, .. } => *found == *dir,
                    },
                },
            },
        };
        let instance_fits = probe.instance.is_none() || self.instance.is_some();
        let history_fits = !probe.history || match &self.history {
            Some(flags) => flags.len() == entries,
            None => false,
        };
        open_fits && instance_fits && history_fits
    }

    /// Whether this answers what was needed, for an application with
    /// `entries` history entries: every question has its answer, a directory
    /// that was to be read regardless is not reported as no directory, and a
    /// directory that was asked for by name is reported under that name.
    pub open spec fn fits(self, needs: Needs, entries: nat) -> bool {
        &&& needs.open matches Some((dir, how)) ==> {
            &&& self.opened matches Some(opened)
            &&& how == Opening::List ==> !(opened is NotADirectory)
            &&& dir matches Some(asked) ==> (opened matches Opened::Listed { dir: found, .. }
                ==> found@ == asked)
        }
        &&& needs.instance is Some ==> self.instance is Some
        &&& needs.history ==> (self.history matches Some(flags) && flags.len() == entries)
    }
}

/// Whether the control loop goes on after a key press.
#[derive(Debug, Clone, PartialEq, Eq)]
pub enum Flow {
    Continue,
    /// The user asked to leave.
    Quit,
    /// Something on disk could not be read; the text says what.
    Fail(String),
}

/// What the front end has to do after a key press or a message.
#[derive(Debug, Clone, PartialEq, Eq)]
pub enum Effect {
    Nothing,
    /// Start installing the missing tools.
    StartInstall,
    /// Start fetching the changelog.
    StartChangelogFetch,
    /// Start listing the branches of the remote.
    StartBranchListing,
    /// Start synchronising `path` with `branch`.
    StartSync { path: String, branch: String },
    /// Record that the guided tour has been taken.
    MarkTutorialCompleted,
    /// Write the history to disk.
    SaveHistory,
    /// Empty the path field.
    ResetInput,
    /// Pass the key press on to the path field.
    EditInput,
    /// Paste the clipboard into the path field.
    PasteClipboard,
}

/// The outcome of a key press.
#[derive(Debug, Clone, PartialEq, Eq)]
pub struct Reaction {
    pub flow: Flow,
    pub effect: Effect,
}

impl Reaction {
    /// Go on, nothing to do.
    pub open spec fn is_idle(self) -> bool {
        self.flow is Continue && self.effect is Nothing
    }

    /// Go on, with `effect` to carry out.
    pub open spec fn carries(self, effect: Effect) -> bool {
        self.flow is Continue && self.effect == effect
    }

    /// Leave the loop.
    pub open spec fn is_quit(self) -> bool {
        self.flow is Quit && self.effect is Nothing
    }

    /// Give up with the error `text`.
    pub open spec fn is_failure(self, text: String) -> bool {
        self.flow == Flow::Fail(text) && self.effect is Nothing
    }

    /// The reaction that goes on with nothing to do.
    pub fn idle() -> (r: Reaction)
        ensures
            r.is_idle(),
    {
        Reaction { flow: Flow::Continue, effect: Effect::Nothing }
    }

    /// The reaction that goes on with `effect` to carry out.
    pub fn with(effect: Effect) -> (r: Reaction)
        ensures
            r.carries(effect),
    {
        Reaction { flow: Flow::Continue, effect }
    }

    /// The reaction that leaves the loop.
    pub fn quit() -> (r: Reaction)
        ensures
            r.is_quit(),
    {
        Reaction { flow: Flow::Quit, effect: Effect::Nothing }
    }

    /// The reaction that gives up with the error `text`.
    pub fn fail(text: String) -> (r: Reaction)
        ensures
            r.is_failure(text),
    {
        Reaction { flow: Flow::Fail(text), effect: Effect::Nothing }
    }
}

/// Whether a dialog is up that takes every key for itself.
pub open spec fn dialog_is_up(app: App) -> bool {
    app.state is ConfirmDependencyInstall || app.state is ConfirmUpdate || app.state
        is ViewingChangelog
}

/// Whether the guided tour takes the keys.
pub open spec fn tour_is_on(app: App) -> bool {
    app.tutorial is Some && !app.tutorial_paused
}

/// Whether the key leaves the start screen, and with it the application.
pub open spec fn leaves_startup(key: KeyPress) -> bool {
    key.is_char('q') || key.code == KeyCode::Esc
}

/// What a key press needs from the disk.
pub open spec fn key_needs(app: App, key: KeyPress) -> Needs {
    if dialog_is_up(app) {
        Needs::nothing()
    } else if tour_is_on(app) {
        tutorial_needs(app, key)
    } else {
        match app.mode {
            RunMode::StartupSelection => if leaves_startup(key) {
                Needs::nothing()
            } else {
                startup_needs(app, key)
            },
            RunMode::FileBrowser => browser_needs(app, key),
        }
    }
}

/// The sound a key press makes, if any.
pub open spec fn key_sound(app: App, key: KeyPress) -> Option<MusicCommand> {
    if dialog_is_up(app) {
        None
    } else if tour_is_on(app) {
        tutorial_sound(app, key)
    } else {
        match app.mode {
            RunMode::StartupSelection => if leaves_startup(key) {
                Some(MusicCommand::PlayConfirmSfx)
            } else {
                startup_sound(app, key)
            },
            RunMode::FileBrowser => browser_sound(app, key),
        }
    }
}

/// Whether `after` and `reaction` are what a key press does while one of the
/// three dialogs is up that take every key for themselves.
///
/// Asked whether to install what is missing: `y` starts the installation,
/// `n`, `q` and Escape leave the application. Asked whether to update: `y`
/// leaves the application to have it updated, unless a synchronisation is
/// still listened for, during which no update is started; Escape goes on
/// without.
/// Reading the changelog: Up and Down scroll by one line, never past the
/// ends of what a 16-bit counter holds, and Escape closes it.
pub open spec fn dialog_handled(app: App, key: KeyPress, after: App, reaction: Reaction) -> bool {
    match app.state {
        AppState::ConfirmDependencyInstall { .. } => if key.is_char('y') || key.is_char('Y') {
            &&& after == (App {
                jobs: Jobs { install: true, ..app.jobs },
                state: AppState::InstallingDependencies,
                ..app
            })
            &&& reaction.carries(Effect::StartInstall)
        } else if key.is_char('n') || key.is_char('N') || key.code == KeyCode::Esc || key.is_char(
            'q',
        ) {
            after == app && reaction.is_quit()
        } else {
            after == app && reaction.is_idle()
        },
        AppState::ConfirmUpdate { .. } => if key.is_char('y') || key.is_char('Y') {
            if app.jobs.sync {
                after == app && reaction.is_idle()
            } else {
                after == (App { should_perform_update: true, ..app }) && reaction.is_quit()
            }
        } else if key.code == KeyCode::Esc {
            after == (App { state: AppState::Browsing, ..app }) && reaction.is_idle()
        } else {
            after == app && reaction.is_idle()
        },
        AppState::ViewingChangelog { content, scroll } => {
            &&& reaction.is_idle()
            &&& after == match key.code {
                KeyCode::Up => App {
                    state: AppState::ViewingChangelog {
                        content,
                        scroll: if scroll == 0 {
                            0
                        } else {
                            (scroll - 1) as u16
                        },
                    },
                    ..app
                },
                KeyCode::Down => App {
                    state: AppState::ViewingChangelog {
                        content,
                        scroll: if scroll == u16::MAX {
                            scroll
                        } else {
                            (scroll + 1) as u16
                        },
                    },
                    ..app
                },
                KeyCode::Esc => App { state: AppState::Browsing, ..app },
                _ => app,
            }
        },
        _ => after == app && reaction.is_idle(),
    }
}

/// Whether `after` and `reaction` are what a key press does.
///
/// A dialog that is up takes the key. Otherwise the guided tour takes it
/// while it is running and not paused. Otherwise the screen that is up takes
/// it; on the start screen `q` and Escape leave the application. While the
/// state waits for a job, no key leads away from it: the state changes only
/// when the job reports.
pub open spec fn key_handled(
    app: App,
    key: KeyPress,
    answer: Answer,
    after: App,
    reaction: Reaction,
) -> bool {
    if dialog_is_up(app) {
        dialog_handled(app, key, after, reaction)
    } else if tour_is_on(app) {
        tutorial_handled(app, key, answer, after, reaction)
    } else {
        match app.mode {
            RunMode::StartupSelection => if leaves_startup(key) {
                after == app && reaction.is_quit()
            } else {
                startup_handled(app, key, answer, after, reaction)
            },
            RunMode::FileBrowser => browser_handled(app, key, answer, after, reaction),
        }
    }
}

fn dialog_up(app: &App) -> (up: bool)
    ensures
        up == dialog_is_up(*app),
{
    match &app.state {
        AppState::ConfirmDependencyInstall { .. } => true,
        AppState::ConfirmUpdate { .. } => true,
        AppState::ViewingChangelog { .. } => true,
        _ => false,
    }
}

/// Says what [`handle_key`] will need to know from the disk to handle this
/// key press.
pub fn probe_for(app: &App, key: &KeyPress) -> (probe: Probe)
    requires
        app.wf(),
    ensures
        probe@ == key_needs(*app, *key),
{
    if dialog_up(app) {
        Probe::nothing()
    } else if app.tutorial.is_some() && !app.tutorial_paused {
        tutorial_probe(app, key)
    } else {
        match app.mode {
            RunMode::StartupSelection => {
                if key.pressed('q') || key.code == KeyCode::Esc {
                    Probe::nothing()
                } else {
                    startup_probe(app, key)
                }
            },
            RunMode::FileBrowser => browser_probe(app, key),
        }
    }
}

fn on_install_question(app: &mut App, key: &KeyPress) -> (reaction: Reaction)
    requires
        old(app).wf(),
        old(app).state is ConfirmDependencyInstall,
    ensures
        dialog_handled(*old(app), *key, *final(app), reaction),
        final(app).wf(),
        old(app).jobs_consistent() ==> final(app).jobs_consistent(),
{
    if key.pressed('y') || key.pressed('Y') {
        app.jobs.install = true;
        app.state = AppState::InstallingDependencies;
        Reaction::with(Effect::StartInstall)
    } else if key.pressed('n') || key.pressed('N') || key.code == KeyCode::Esc || key.pressed('q') {
        Reaction::quit()
    } else {
        Reaction::idle()
    }
}

fn on_update_question(app: &mut App, key: &KeyPress) -> (reaction: Reaction)
    requires
        old(app).wf(),
        old(app).state is ConfirmUpdate,
    ensures
        dialog_handled(*old(app), *key, *final(app), reaction),
        final(app).wf(),
        old(app).jobs_consistent() ==> final(app).jobs_consistent(),
{
    if key.pressed('y') || key.pressed('Y') {
        if app.jobs.sync {
            Reaction::idle()
        } else {
            app.should_perform_update = true;
            Reaction::quit()
        }
    } else if key.code == KeyCode::Esc {
        app.state = AppState::Browsing;
        Reaction::idle()
    } else {
        Reaction::idle()
    }
}

fn on_changelog_view(app: &mut App, key: &KeyPress) -> (reaction: Reaction)
    requires
        old(app).wf(),
        old(app).state is ViewingChangelog,
    ensures
        dialog_handled(*old(app), *key, *final(app), reaction),
        final(app).wf(),
        old(app).jobs_consistent() ==> final(app).jobs_consistent(),
{
    let mut leave = false;
    match &mut app.state {
        AppState::ViewingChangelog { content, scroll } => {
            match key.code {
                KeyCode::Up => {
                    if *scroll > 0 {
                        *scroll = *scroll - 1;
                    }
                },
                KeyCode::Down => {
                    if *scroll < u16::MAX {
                        *scroll = *scroll + 1;
                    }
                },
                KeyCode::Esc => {
                    leave = true;
                },
                _ => {},
            }
        },
        _ => {},
    }
    if leave {
        app.state = AppState::Browsing;
    }
    Reaction::idle()
}

fn on_dialog(app: &mut App, key: &KeyPress) -> (reaction: Reaction)
    requires
        old(app).wf(),
        dialog_is_up(*old(app)),
    ensures
        dialog_handled(*old(app), *key, *final(app), reaction),
        final(app).wf(),
        old(app).jobs_consistent() ==> final(app).jobs_consistent(),
{
    match &app.state {
        AppState::ConfirmDependencyInstall { .. } => on_install_question(app, key),
        AppState::ConfirmUpdate { .. } => on_update_question(app, key),
        _ => on_changelog_view(app, key),
    }
}

/// Handles one key press.
///
/// `answer` holds what [`probe_for`] asked for. The result says whether the
/// loop goes on and what the front end has to do; the sound the key makes,
/// if any, is queued on `music`.
pub fn handle_key(
    app: &mut App,
    key: &KeyPress,
    answer: Answer,
    music: &mut MusicPlayer,
) -> (reaction: Reaction)
    requires
        old(app).wf(),
        can_handle(*old(app), *key),
        answer.fits(key_needs(*old(app), *key), old(app).history@.len()),
    ensures
        key_handled(*old(app), *key, answer, *final(app), reaction),
        final(app).wf() || reaction.flow is Fail,
        old(app).jobs_consistent() ==> final(app).jobs_consistent(),
        old(music).issued(key_sound(*old(app), *key), *final(music)),
{
    if dialog_up(app) {
        on_dialog(app, key)
    } else if app.tutorial.is_some() && !app.tutorial_paused {
        handle_tutorial_input(app, key, answer, music)
    } else {
        match app.mode {
            RunMode::StartupSelection => {
                if key.pressed('q') || key.code == KeyCode::Esc {
                    music.play_confirm_sfx();
                    Reaction::quit()
                } else {
                    handle_startup_input(app, key, answer, music)
                }
            },
            RunMode::FileBrowser => handle_file_browser_input(app, key, answer, music),
        }
    }
}

/// Handles one key press, if it can be handled.
///
/// Nothing happens, and nothing is returned, where the application is not
/// well formed, where `answer` does not hold what [`probe_for`] asks for,
/// and where the key press would start a synchronisation with no folder
/// confirmed. Otherwise this is [`handle_key`].
pub fn press(
    app: &mut App,
    key: &KeyPress,
    answer: Answer,
    music: &mut MusicPlayer,
) -> (out: Option<Reaction>)
    ensures
        out is Some <==> {
            &&& old(app).wf()
            &&& can_handle(*old(app), *key)
            &&& answer.fits(key_needs(*old(app), *key), old(app).history@.len())
        },
        out matches Some(reaction) ==> {
            &&& key_handled(*old(app), *key, answer, *final(app), reaction)
            &&& final(app).wf() || reaction.flow is Fail
            &&& old(app).jobs_consistent() ==> final(app).jobs_consistent()
            &&& old(music).issued(key_sound(*old(app), *key), *final(music))
        },
        out is None ==> *final(app) == *old(app) && *final(music) == *old(music),
{
    if !app.is_well_formed() {
        return None;
    }
    let probe = probe_for(app, key);
    if !answer.answers(&probe, app.history.len()) || !ready(app, key) {
        return None;
    }
    Some(handle_key(app, key, answer, music))
}

/// Only one synchronisation at a time. Whatever the key press, the front end
/// is told to start a synchronisation only while the application listens for
/// none; the folder it is to synchronise is the confirmed one, and from then
/// on the application listens for the job, remembers what it works on, and
/// shows its progress.
pub proof fn lemma_one_sync_at_a_time(
    app: App,
    key: KeyPress,
    answer: Answer,
    after: App,
    reaction: Reaction,
)
    requires
        key_handled(app, key, answer, after, reaction),
        reaction.effect is StartSync,
    ensures
        !app.jobs.sync,
        after.jobs.sync,
        after.state is Processing,
        reaction.effect matches Effect::StartSync { path, branch } && app.confirmed_path == Some(
            path,
        ) && after.sync_target == Some(SyncTarget { path, branch }),
{
    if dialog_is_up(app) {
    } else if tour_is_on(app) {
        lemma_tour_starts_sync_like_browser(app, key, answer, after, reaction);
    } else {
    }
}

/// The synchronisation works on the confirmed folder. If the
/// synchronisation that is listened for works on the confirmed folder
/// before a key press, it does so after it: while a synchronisation is
/// awaited no key changes the confirmed folder, and a synchronisation that a
/// key starts is given the confirmed folder.
pub proof fn lemma_target_stays_confirmed(
    app: App,
    key: KeyPress,
    answer: Answer,
    after: App,
    reaction: Reaction,
)
    requires
        key_handled(app, key, answer, after, reaction),
        app.jobs_consistent(),
        app.target_confirmed(),
    ensures
        after.target_confirmed(),
{
    if dialog_is_up(app) {
    } else if tour_is_on(app) {
        lemma_tour_keeps_target(app, key, answer, after, reaction);
    } else {
        match app.mode {
            RunMode::StartupSelection => {
                if !leaves_startup(key) {
                    lemma_startup_keeps_target(app, key, answer, after, reaction);
                }
            },
            RunMode::FileBrowser => {
                lemma_browser_keeps_target(app, key, answer, after, reaction);
            },
        }
    }
}

/// No update while a synchronisation runs. Whatever the key press, the
/// application decides to have itself updated only while it listens for no
/// synchronisation, and leaves at once when it does.
pub proof fn lemma_update_waits_for_sync(
    app: App,
    key: KeyPress,
    answer: Answer,
    after: App,
    reaction: Reaction,
)
    requires
        key_handled(app, key, answer, after, reaction),
        !app.should_perform_update,
        after.should_perform_update,
    ensures
        !app.jobs.sync,
        reaction.is_quit(),
{
    if dialog_is_up(app) {
    } else if tour_is_on(app) {
        lemma_tour_keeps_update_flag(app, key, answer, after, reaction);
    } else {
    }
}

} // verus!
