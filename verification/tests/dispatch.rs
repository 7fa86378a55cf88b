use music_player::command::Command;
use music_player::config::Config;
use music_player::dispatch::{
    apply, handle_request, start, supervise, Action, SinkStatus, POLL_INTERVAL_MS,
};
use music_player::playlist::{Entry, Listing, MusicPlayer};
use music_player::volume::{Volume, VOLUME_DEFAULT, VOLUME_MAX, VOLUME_STEP};

fn player_of(paths: &[&str]) -> MusicPlayer {
    let entries = paths.iter().map(|p| Entry { path: p.to_string(), is_file: true }).collect();
    MusicPlayer::new(Listing::Directory(entries)).unwrap()
}

fn sink(paused: bool, millis: i32) -> SinkStatus {
    SinkStatus { paused, volume: Volume { millis } }
}

fn millis_of(gain: f32) -> i32 {
    (gain * 1000.0).round() as i32
}

#[test]
fn each_command_has_its_token() {
    assert_eq!(Command::parse("next"), Some(Command::Next));
    assert_eq!(Command::parse("prev"), Some(Command::Prev));
    assert_eq!(Command::parse("pause"), Some(Command::TogglePause));
    assert_eq!(Command::parse("stop"), Some(Command::Stop));
    assert_eq!(Command::parse("volume_up"), Some(Command::VolumeUp));
    assert_eq!(Command::parse("volume_down"), Some(Command::VolumeDown));
}

#[test]
fn tokens_read_back_as_their_commands() {
    let all = [
        Command::Next,
        Command::Prev,
        Command::TogglePause,
        Command::Stop,
        Command::VolumeUp,
        Command::VolumeDown,
    ];
    for command in all {
        assert_eq!(Command::parse(command.token()), Some(command));
    }
    assert_eq!(Command::TogglePause.token(), "pause");
    assert_eq!(Command::VolumeDown.token(), "volume_down");
}

#[test]
fn other_texts_are_no_command() {
    for text in ["seek", "", "Next", "next ", " next", "next\n", "volume", "volumeup", "toggle_pause"] {
        assert_eq!(Command::parse(text), None);
    }
}

#[test]
fn unrecognized_token_changes_nothing() {
    let mut player = player_of(&["a.mp3", "b.wav", "c.flac"]);
    player.next();
    assert_eq!(handle_request(&mut player, "seek", sink(false, 700)), None);
    assert_eq!(player.cursor(), 1);
    assert_eq!(player.current_path(), "b.wav");
    assert_eq!(handle_request(&mut player, "", sink(true, 0)), None);
    assert_eq!(player.cursor(), 1);
}

#[test]
fn next_requests_walk_the_directory() {
    let mut player = player_of(&["a.mp3", "b.wav", "c.flac"]);
    assert_eq!(player.current_track(), "a.mp3");
    assert_eq!(
        handle_request(&mut player, "next", sink(false, 700)),
        Some(Action::Play("b.wav".to_string()))
    );
    assert_eq!(player.current_track(), "b.wav");
    assert_eq!(
        handle_request(&mut player, "next", sink(false, 700)),
        Some(Action::Play("c.flac".to_string()))
    );
    assert_eq!(player.current_track(), "c.flac");
    assert_eq!(
        handle_request(&mut player, "next", sink(false, 700)),
        Some(Action::Play("a.mp3".to_string()))
    );
    assert_eq!(player.current_track(), "a.mp3");
}

#[test]
fn prev_request_steps_back_and_plays() {
    let mut player = player_of(&["a.mp3", "b.wav", "c.flac"]);
    assert_eq!(
        handle_request(&mut player, "prev", sink(false, 700)),
        Some(Action::Play("c.flac".to_string()))
    );
    assert_eq!(player.cursor(), 2);
    assert_eq!(apply(&mut player, Command::Prev, sink(true, 700)), Action::Play("b.wav".to_string()));
    assert_eq!(player.cursor(), 1);
}

#[test]
fn toggle_pause_goes_by_what_the_sink_reports() {
    let mut player = player_of(&["a.mp3", "b.wav"]);
    assert_eq!(apply(&mut player, Command::TogglePause, sink(true, 700)), Action::Resume);
    assert_eq!(apply(&mut player, Command::TogglePause, sink(false, 700)), Action::Pause);
    assert_eq!(player.cursor(), 0);
}

#[test]
fn stop_ends_the_process_and_moves_nothing() {
    let mut player = player_of(&["a.mp3", "b.wav"]);
    player.next();
    assert_eq!(apply(&mut player, Command::Stop, sink(false, 700)), Action::Exit);
    assert_eq!(handle_request(&mut player, "stop", sink(true, 0)), Some(Action::Exit));
    assert_eq!(player.cursor(), 1);
}

#[test]
fn volume_commands_move_one_step() {
    let mut player = player_of(&["a.mp3"]);
    assert_eq!(
        apply(&mut player, Command::VolumeUp, sink(false, 700)),
        Action::SetVolume(Volume { millis: 800 })
    );
    assert_eq!(
        apply(&mut player, Command::VolumeDown, sink(false, 700)),
        Action::SetVolume(Volume { millis: 600 })
    );
    assert_eq!(
        handle_request(&mut player, "volume_up", sink(true, 0)),
        Some(Action::SetVolume(Volume { millis: 100 }))
    );
    assert_eq!(
        handle_request(&mut player, "volume_down", sink(true, 1000)),
        Some(Action::SetVolume(Volume { millis: 900 }))
    );
    assert_eq!(player.cursor(), 0);
}

#[test]
fn two_steps_up_from_095_end_at_full_scale() {
    let start = Volume { millis: millis_of(0.95) };
    assert_eq!(start.millis, 950);
    let once = start.raised();
    assert_eq!(once.millis, 1000);
    let twice = once.raised();
    assert_eq!(twice.millis, 1000);
    assert_eq!(twice.millis as f32 / 1000.0, 1.0);
}

#[test]
fn two_steps_down_from_005_end_at_silence() {
    let start = Volume { millis: millis_of(0.05) };
    assert_eq!(start.millis, 50);
    let once = start.lowered();
    assert_eq!(once.millis, 0);
    let twice = once.lowered();
    assert_eq!(twice.millis, 0);
    assert_eq!(twice.millis as f32 / 1000.0, 0.0);
}

#[test]
fn volume_steps_are_a_tenth() {
    assert_eq!(VOLUME_STEP, 100);
    assert_eq!(VOLUME_MAX, 1000);
    assert_eq!(Volume { millis: 0 }.raised().millis, 100);
    assert_eq!(Volume { millis: 899 }.raised().millis, 999);
    assert_eq!(Volume { millis: 900 }.raised().millis, 1000);
    assert_eq!(Volume { millis: 901 }.raised().millis, 1000);
    assert_eq!(Volume { millis: 1000 }.lowered().millis, 900);
    assert_eq!(Volume { millis: 101 }.lowered().millis, 1);
    assert_eq!(Volume { millis: 100 }.lowered().millis, 0);
    assert_eq!(Volume { millis: 99 }.lowered().millis, 0);
}

#[test]
fn volume_steps_keep_order_and_range() {
    let mut last_up = i32::MIN;
    let mut last_down = i32::MIN;
    for millis in 0..=1000 {
        let up = Volume { millis }.raised().millis;
        let down = Volume { millis }.lowered().millis;
        assert!(millis <= up && up <= 1000);
        assert!(0 <= down && down <= millis);
        assert!(last_up <= up);
        assert!(last_down <= down);
        last_up = up;
        last_down = down;
    }
}

#[test]
fn volume_out_of_range_is_clamped_on_the_side_of_the_step() {
    assert_eq!(Volume { millis: 2000 }.raised().millis, 1000);
    assert_eq!(Volume { millis: 2000 }.lowered().millis, 1900);
    assert_eq!(Volume { millis: -500 }.raised().millis, -400);
    assert_eq!(Volume { millis: -500 }.lowered().millis, 0);
    assert_eq!(Volume { millis: i32::MAX }.raised().millis, 1000);
    assert_eq!(Volume { millis: i32::MIN }.lowered().millis, 0);
}

#[test]
fn order_of_commands_does_not_show_in_the_end() {
    let one = ["next", "next", "prev", "pause", "next", "volume_up", "prev", "next"];
    let other = ["prev", "volume_up", "next", "next", "pause", "next", "next", "prev"];
    let mut first = player_of(&["a.mp3", "b.wav", "c.flac"]);
    let mut second = player_of(&["a.mp3", "b.wav", "c.flac"]);
    for token in one {
        handle_request(&mut first, token, sink(false, 700));
    }
    for token in other {
        handle_request(&mut second, token, sink(false, 700));
    }
    assert_eq!(first.cursor(), 2);
    assert_eq!(second.cursor(), 2);
}

#[test]
fn player_starts_with_the_current_track() {
    let mut player = player_of(&["a.mp3", "b.wav"]);
    assert_eq!(start(&player), Action::Play("a.mp3".to_string()));
    assert_eq!(player.cursor(), 0);
    player.next();
    assert_eq!(start(&player), Action::Play("b.wav".to_string()));
}

#[test]
fn supervisor_moves_on_when_the_sink_is_empty() {
    let mut player = player_of(&["a.mp3", "b.wav"]);
    assert_eq!(supervise(&mut player, false), None);
    assert_eq!(player.cursor(), 0);
    assert_eq!(supervise(&mut player, true), Some(Action::Play("b.wav".to_string())));
    assert_eq!(player.cursor(), 1);
    assert_eq!(supervise(&mut player, true), Some(Action::Play("a.mp3".to_string())));
    assert_eq!(player.cursor(), 0);
    assert_eq!(POLL_INTERVAL_MS, 100);
}

#[test]
fn default_config_binds_the_four_media_keys() {
    let config = Config::default();
    assert_eq!(config.hotkeys.len(), 4);
    assert_eq!(config.hotkeys.combination_of("next"), Some(&"XF86AudioNext".to_string()));
    assert_eq!(config.hotkeys.combination_of("prev"), Some(&"XF86AudioPrev".to_string()));
    assert_eq!(config.hotkeys.combination_of("pause"), Some(&"XF86AudioPlay".to_string()));
    assert_eq!(config.hotkeys.combination_of("stop"), Some(&"XF86AudioStop".to_string()));
    assert_eq!(config.hotkeys.combination_of("volume_up"), None);
    assert_eq!(config.music_dir, None);
    assert_eq!(config.volume, Volume { millis: 700 });
    assert_eq!(VOLUME_DEFAULT, 700);
    assert_eq!(config.volume.millis as f32 / 1000.0, 0.7);
}

#[test]
fn config_directory_falls_back_to_the_current_one() {
    let mut config = Config::default();
    assert_eq!(config.directory(), ".");
    config.music_dir = Some("/srv/music".to_string());
    assert_eq!(config.directory(), "/srv/music");
}

#[test]
fn config_copy_is_equal() {
    let mut config = Config::default();
    config.music_dir = Some("/srv/music".to_string());
    config.volume = Volume { millis: 250 };
    config.hotkeys.insert("next".to_string(), "ctrl+n".to_string());
    let copy = config.clone();
    assert_eq!(copy.music_dir, config.music_dir);
    assert_eq!(copy.volume, config.volume);
    assert_eq!(copy.hotkeys.len(), 4);
    assert_eq!(copy.hotkeys.combination_of("next"), Some(&"ctrl+n".to_string()));
}
