use modpack_updater::music::{Jingle, MusicCommand, MusicPlayer, NowPlaying, Playback, SinkOrder};

#[test]
fn player_queues_commands_in_order() {
    let mut player = MusicPlayer::new();
    assert!(!player.is_paused);
    player.play();
    player.play_sfx();
    player.play_scroll_sfx();
    player.play_confirm_sfx();
    player.play_cancel_sfx();
    player.play_secret_track();
    assert_eq!(
        player.take_commands(),
        vec![
            MusicCommand::Play,
            MusicCommand::PlaySfx,
            MusicCommand::PlayScrollSfx,
            MusicCommand::PlayConfirmSfx,
            MusicCommand::PlayCancelSfx,
            MusicCommand::PlaySecretTrack,
        ]
    );
    assert!(player.take_commands().is_empty());
}

#[test]
fn player_tracks_the_pause() {
    let mut player = MusicPlayer::new();
    player.toggle_pause();
    assert!(player.is_paused);
    player.play_confirm_sfx();
    assert!(player.is_paused);
    player.toggle_pause();
    assert!(!player.is_paused);
    player.toggle_pause();
    player.play();
    assert!(!player.is_paused);
    player.toggle_pause();
    player.play_secret_track();
    assert!(!player.is_paused);
    player.toggle_pause();
    assert!(player.is_paused);
    let _ = player.take_commands();
    assert!(player.is_paused);
}

#[test]
fn player_stops_and_then_exits() {
    let mut player = MusicPlayer::new();
    player.stop();
    assert_eq!(player.take_commands(), vec![MusicCommand::Stop, MusicCommand::Exit]);
}

#[test]
fn playback_follows_commands() {
    let mut playback = Playback::new();
    assert_eq!(playback, Playback { is_playing: false, secret_mode: false, next_song: 0 });
    assert_eq!(playback.on_command(MusicCommand::Play, false), SinkOrder::Resume);
    assert!(playback.is_playing && !playback.secret_mode);
    assert_eq!(playback.on_command(MusicCommand::PlaySfx, false), SinkOrder::Overlay(Jingle::Secret));
    assert_eq!(
        playback.on_command(MusicCommand::PlayScrollSfx, false),
        SinkOrder::Overlay(Jingle::Scroll)
    );
    assert_eq!(
        playback.on_command(MusicCommand::PlayConfirmSfx, false),
        SinkOrder::Overlay(Jingle::Confirm)
    );
    assert_eq!(
        playback.on_command(MusicCommand::PlayCancelSfx, false),
        SinkOrder::Overlay(Jingle::Cancel)
    );
    assert!(playback.is_playing);
    assert_eq!(playback.on_command(MusicCommand::TogglePause, false), SinkOrder::Pause);
    assert!(!playback.is_playing);
    assert_eq!(playback.on_command(MusicCommand::TogglePause, true), SinkOrder::Resume);
    assert!(playback.is_playing);
    assert_eq!(playback.on_command(MusicCommand::PlaySecretTrack, false), SinkOrder::LoopSecretTrack);
    assert!(playback.is_playing && playback.secret_mode);
    assert_eq!(playback.on_command(MusicCommand::Play, false), SinkOrder::Resume);
    assert!(!playback.secret_mode);
    assert_eq!(playback.on_command(MusicCommand::Stop, false), SinkOrder::Halt);
    assert!(!playback.is_playing);
    assert_eq!(playback.on_command(MusicCommand::Exit, false), SinkOrder::Quit);
}

#[test]
fn playlist_goes_round() {
    let mut playback = Playback::new();
    playback.on_command(MusicCommand::Play, false);
    assert_eq!(playback.on_idle(true, 3), Some(0));
    assert_eq!(playback.now_playing(3), NowPlaying::Song(0));
    assert_eq!(playback.on_idle(false, 3), None);
    assert_eq!(playback.on_idle(true, 3), Some(1));
    assert_eq!(playback.now_playing(3), NowPlaying::Song(1));
    assert_eq!(playback.on_idle(true, 3), Some(2));
    assert_eq!(playback.next_song, 0);
    assert_eq!(playback.now_playing(3), NowPlaying::Song(2));
    assert_eq!(playback.on_idle(true, 3), Some(0));
    assert_eq!(playback.next_song, 1);
}

#[test]
fn playlist_waits_while_stopped_or_in_secret_mode() {
    let mut playback = Playback::new();
    assert_eq!(playback.on_idle(true, 3), None);
    playback.on_command(MusicCommand::PlaySecretTrack, false);
    assert_eq!(playback.on_idle(true, 3), None);
    assert_eq!(playback.now_playing(3), NowPlaying::SecretTrack);
    assert_eq!(playback.next_song, 0);
}

#[test]
fn song_before_the_first_is_the_last() {
    let playback = Playback { is_playing: true, secret_mode: false, next_song: 0 };
    assert_eq!(playback.now_playing(3), NowPlaying::Song(2));
    for next in 0..3usize {
        let playback = Playback { is_playing: true, secret_mode: false, next_song: next };
        assert_eq!(playback.now_playing(3), NowPlaying::Song((next + 3 - 1) % 3));
    }
}
