//! The jukebox seen from the control loop.
//!
//! The control loop never touches an audio device. It records what it wants
//! to hear as commands; the audio side drains them and decides, command by
//! command, what to do with its output.

use vstd::prelude::*;

verus! {

/// A request from the control loop to the audio side.
#[derive(Debug, Clone, Copy, PartialEq, Eq, Structural)]
pub enum MusicCommand {
    Play,
    TogglePause,
    Stop,
    Exit,
    PlaySecretTrack,
    PlaySfx,
    PlayScrollSfx,
    PlayConfirmSfx,
    PlayCancelSfx,
}

/// The control loop's handle on the jukebox: whether it believes the music
/// is paused, and the commands it has issued that nobody has collected yet.
#[derive(Debug)]
pub struct MusicPlayer {
    pub is_paused: bool,
    /// Issued and not yet collected, oldest first.
    pub commands: Vec<MusicCommand>,
}

impl MusicPlayer {
    /// The commands waiting to be collected, oldest first.
    pub open spec fn queued(&self) -> Seq<MusicCommand> {
        self.commands@
    }

    /// A player that is not paused and has issued nothing.
    pub fn new() -> (player: MusicPlayer)
        ensures
            !player.is_paused,
            player.queued() == Seq::<MusicCommand>::empty(),
    {
        MusicPlayer { is_paused: false, commands: Vec::new() }
    }

    /// Starts (or resumes) the playlist.
    pub fn play(&mut self)
        ensures
            !final(self).is_paused,
            final(self).queued() == old(self).queued().push(MusicCommand::Play),
    {
        self.is_paused = false;
        self.commands.push(MusicCommand::Play);
    }

    /// Switches to the hidden track.
    pub fn play_secret_track(&mut self)
        ensures
            !final(self).is_paused,
            final(self).queued() == old(self).queued().push(MusicCommand::PlaySecretTrack),
    {
        self.is_paused = false;
        self.commands.push(MusicCommand::PlaySecretTrack);
    }

    /// Plays the key-press effect of the hidden mode.
    pub fn play_sfx(&mut self)
        ensures
            final(self).is_paused == old(self).is_paused,
            final(self).queued() == old(self).queued().push(MusicCommand::PlaySfx),
    {
        self.commands.push(MusicCommand::PlaySfx);
    }

    /// Plays the effect for moving through a list.
    pub fn play_scroll_sfx(&mut self)
        ensures
            final(self).is_paused == old(self).is_paused,
            final(self).queued() == old(self).queued().push(MusicCommand::PlayScrollSfx),
    {
        self.commands.push(MusicCommand::PlayScrollSfx);
    }

    /// Plays the effect for confirming a choice.
    pub fn play_confirm_sfx(&mut self)
        ensures
            final(self).is_paused == old(self).is_paused,
            final(self).queued() == old(self).queued().push(MusicCommand::PlayConfirmSfx),
    {
        self.commands.push(MusicCommand::PlayConfirmSfx);
    }

    /// Plays the effect for backing out.
    pub fn play_cancel_sfx(&mut self)
        ensures
            final(self).is_paused == old(self).is_paused,
            final(self).queued() == old(self).queued().push(MusicCommand::PlayCancelSfx),
    {
        self.commands.push(MusicCommand::PlayCancelSfx);
    }

    /// Flips between paused and playing.
    pub fn toggle_pause(&mut self)
        ensures
            final(self).is_paused == !old(self).is_paused,
            final(self).queued() == old(self).queued().push(MusicCommand::TogglePause),
    {
        self.is_paused = !self.is_paused;
        self.commands.push(MusicCommand::TogglePause);
    }

    /// Silences the jukebox and tells the audio side to shut down.
    pub fn stop(&mut self)
        ensures
            final(self).is_paused == old(self).is_paused,
            final(self).queued() == old(self).queued().push(MusicCommand::Stop).push(
                MusicCommand::Exit,
            ),
    {
        self.commands.push(MusicCommand::Stop);
        self.commands.push(MusicCommand::Exit);
    }

    /// Whether `after` is this player once it has issued `command`, or
    /// nothing: the command is queued last; starting the playlist or the
    /// hidden track unpauses, toggling flips, everything else leaves the
    /// pause as it is.
    pub open spec fn issued(self, command: Option<MusicCommand>, after: MusicPlayer) -> bool {
        match command {
            None => after.queued() == self.queued() && after.is_paused == self.is_paused,
            Some(c) => {
                &&& after.queued() == self.queued().push(c)
                &&& after.is_paused == match c {
                    MusicCommand::Play | MusicCommand::PlaySecretTrack => false,
                    MusicCommand::TogglePause => !self.is_paused,
                    _ => self.is_paused,
                }
            },
        }
    }

    /// Hands over everything issued since the last collection, oldest first,
    /// and starts afresh.
    pub fn take_commands(&mut self) -> (out: Vec<MusicCommand>)
        ensures
            out@ == old(self).queued(),
            final(self).queued() == Seq::<MusicCommand>::empty(),
            final(self).is_paused == old(self).is_paused,
    {
        let mut out: Vec<MusicCommand> = Vec::new();
        std::mem::swap(&mut out, &mut self.commands);
        out
    }
}

/// The short sounds that play over the music.
#[derive(Debug, Clone, Copy, PartialEq, Eq, Structural)]
pub enum Jingle {
    Secret,
    Scroll,
    Confirm,
    Cancel,
}

/// What the audio side does with its output in answer to one command.
#[derive(Debug, Clone, Copy, PartialEq, Eq, Structural)]
pub enum SinkOrder {
    /// Let the music run.
    Resume,
    /// Hold the music.
    Pause,
    /// Drop what is queued, loop the hidden track, and let it run.
    LoopSecretTrack,
    /// Play a short sound over the music.
    Overlay(Jingle),
    /// Silence the output.
    Halt,
    /// Leave the audio loop.
    Quit,
}

/// What is on air.
#[derive(Debug, Clone, Copy, PartialEq, Eq, Structural)]
pub enum NowPlaying {
    SecretTrack,
    Song(usize),
}

/// The audio side's own state: whether music should be running, whether the
/// hidden track has taken over, and which song of the playlist comes next.
#[derive(Debug, Clone, Copy, PartialEq, Eq, Structural)]
pub struct Playback {
    pub is_playing: bool,
    pub secret_mode: bool,
    pub next_song: usize,
}

/// The order a command leads to, given whether the output is paused.
pub open spec fn order_for(command: MusicCommand, sink_paused: bool) -> SinkOrder {
    match command {
        MusicCommand::Play => SinkOrder::Resume,
        MusicCommand::PlaySecretTrack => SinkOrder::LoopSecretTrack,
        MusicCommand::PlaySfx => SinkOrder::Overlay(Jingle::Secret),
        MusicCommand::PlayScrollSfx => SinkOrder::Overlay(Jingle::Scroll),
        MusicCommand::PlayConfirmSfx => SinkOrder::Overlay(Jingle::Confirm),
        MusicCommand::PlayCancelSfx => SinkOrder::Overlay(Jingle::Cancel),
        MusicCommand::TogglePause => if sink_paused {
            SinkOrder::Resume
        } else {
            SinkOrder::Pause
        },
        MusicCommand::Stop => SinkOrder::Halt,
        MusicCommand::Exit => SinkOrder::Quit,
    }
}

/// The playback state after a command.
pub open spec fn playback_after(before: Playback, command: MusicCommand, sink_paused: bool)
    -> Playback {
    match command {
        MusicCommand::Play => Playback { is_playing: true, secret_mode: false, ..before },
        MusicCommand::PlaySecretTrack => Playback { is_playing: true, secret_mode: true, ..before },
        MusicCommand::TogglePause => Playback { is_playing: sink_paused, ..before },
        MusicCommand::Stop => Playback { is_playing: false, ..before },
        _ => before,
    }
}

/// The song that follows `song` in a playlist of `count`, going back to the
/// first after the last.
pub open spec fn song_after(song: usize, count: usize) -> usize {
    if song + 1 == count {
        0
    } else {
        (song + 1) as usize
    }
}

/// The song that precedes `song` in a playlist of `count`, going back to the
/// last before the first.
pub open spec fn song_before(song: usize, count: usize) -> usize {
    if song == 0 {
        (count - 1) as usize
    } else {
        (song - 1) as usize
    }
}

impl Playback {
    /// Nothing is playing yet; the playlist starts at its first song.
    pub fn new() -> (playback: Playback)
        ensures
            playback == (Playback { is_playing: false, secret_mode: false, next_song: 0 }),
    {
        Playback { is_playing: false, secret_mode: false, next_song: 0 }
    }

    /// Takes one command from the control loop and says what to do with the
    /// output. `sink_paused` tells whether the output is currently held.
    pub fn on_command(&mut self, command: MusicCommand, sink_paused: bool) -> (order: SinkOrder)
        ensures
            order == order_for(command, sink_paused),
            *final(self) == playback_after(*old(self), command, sink_paused),
    {
        match command {
            MusicCommand::Play => {
                self.secret_mode = false;
                self.is_playing = true;
                SinkOrder::Resume
            },
            MusicCommand::PlaySecretTrack => {
                self.secret_mode = true;
                self.is_playing = true;
                SinkOrder::LoopSecretTrack
            },
            MusicCommand::PlaySfx => SinkOrder::Overlay(Jingle::Secret),
            MusicCommand::PlayScrollSfx => SinkOrder::Overlay(Jingle::Scroll),
            MusicCommand::PlayConfirmSfx => SinkOrder::Overlay(Jingle::Confirm),
            MusicCommand::PlayCancelSfx => SinkOrder::Overlay(Jingle::Cancel),
            MusicCommand::TogglePause => {
                if sink_paused {
                    self.is_playing = true;
                    SinkOrder::Resume
                } else {
                    self.is_playing = false;
                    SinkOrder::Pause
                }
            },
            MusicCommand::Stop => {
                self.is_playing = false;
                SinkOrder::Halt
            },
            MusicCommand::Exit => SinkOrder::Quit,
        }
    }

    /// Called between commands: when music should be running, the output has
    /// run dry and the hidden track is not on, the next song of the playlist
    /// is due. Returns its index and moves on to the one after it, wrapping
    /// round at the end of the playlist.
    pub fn on_idle(&mut self, sink_empty: bool, song_count: usize) -> (due: Option<usize>)
        requires
            song_count > 0,
            old(self).next_song < song_count,
        ensures
            final(self).is_playing == old(self).is_playing,
            final(self).secret_mode == old(self).secret_mode,
            final(self).next_song < song_count,
            old(self).is_playing && sink_empty && !old(self).secret_mode ==> {
                &&& due == Some(old(self).next_song)
                &&& final(self).next_song == song_after(old(self).next_song, song_count)
            },
            !(old(self).is_playing && sink_empty && !old(self).secret_mode) ==> {
                &&& due is None
                &&& final(self).next_song == old(self).next_song
            },
    {
        if self.is_playing && sink_empty && !self.secret_mode {
            let due = self.next_song;
            self.next_song = if due + 1 == song_count {
                0
            } else {
                due + 1
            };
            Some(due)
        } else {
            None
        }
    }

    /// What is on air: the hidden track while it has taken over, otherwise
    /// the song before the one that comes next, counting round the playlist.
    pub fn now_playing(&self, song_count: usize) -> (playing: NowPlaying)
        requires
            song_count > 0,
            self.next_song < song_count,
        ensures
            self.secret_mode ==> playing == NowPlaying::SecretTrack,
            !self.secret_mode ==> playing == NowPlaying::Song(
                song_before(self.next_song, song_count),
            ),
    {
        if self.secret_mode {
            NowPlaying::SecretTrack
        } else if self.next_song == 0 {
            NowPlaying::Song(song_count - 1)
        } else {
            NowPlaying::Song(self.next_song - 1)
        }
    }
}

} // verus!
