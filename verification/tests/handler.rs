use wy_media::app::{ActiveModules, App, FsRequest};
use wy_media::handler::fs::{add_media_to_player, handle_fs};
use wy_media::handler::music_controller::{
    above, below, handle_music_controller, handle_playlist, play_selected_song,
    remove_from_playlist,
};
use wy_media::handler::player::{handle_player, louder, quieter};
use wy_media::handler::{handle_active_modules, handle_keyboard_event, Key};
use wy_media::media::error::PlaybackError;
use wy_media::media::media::{Probe, SourceReport};
use wy_media::media::model::{SinkCommand, SinkState};
use wy_media::media::player::Player;
use wy_media::media::status::PlayStatus;
use wy_media::ui::fs::DirItem;
use wy_media::ui::EventType;

const SECOND: u64 = 1_000_000_000;

fn item(name: &str, extension: Option<&str>, is_dir: bool) -> DirItem {
    DirItem { name: name.to_string(), extension: extension.map(|e| e.to_string()), is_dir }
}

/// Two subdirectories and three files: cursor positions 0 to 5.
fn listing() -> Vec<DirItem> {
    vec![
        item("albums", None, true),
        item("one.mp3", Some("mp3"), false),
        item("live", None, true),
        item("two.mp3", Some("mp3"), false),
        item("three.mp3", Some("mp3"), false),
    ]
}

fn app() -> App {
    App::new(Some("/music".to_string()), Some(listing())).unwrap()
}

fn measured(seconds: u64) -> SourceReport {
    SourceReport { readable: true, probe: Probe::Complete(seconds * SECOND) }
}

/// An application whose player holds the three files, the first playing.
fn app_with_tracks() -> App {
    let mut app = app();
    for file in 0..3 {
        assert!(app.file_inspected(file, false, measured(10 * (file as u64 + 1)), 0));
        if file == 0 {
            assert!(app.player.sink_acquired(0));
        }
    }
    app.player.take_commands();
    app
}

#[test]
fn app_starts_with_the_browser_active() {
    let mut app = app();
    assert_eq!(app.active_modules, ActiveModules::Fs);
    assert_eq!(app.msg, "Welcome to wy-media");
    assert_eq!(app.fs.selected(), Some(0));
    assert!(app.player.play_list().is_empty());
    assert!(app.take_requests().is_empty());
    assert_eq!(app.config.tick_gap, 100_000_000);
    assert_eq!(app.config.refresh_rate, 50_000_000);
}

#[test]
fn app_needs_a_browser() {
    assert!(App::new(None, Some(listing())).is_none());
    assert!(App::new(Some("/music".to_string()), None).is_none());
}

#[test]
fn set_msg_replaces_the_status_line() {
    let mut app = app();
    app.set_msg("hello");
    assert_eq!(app.msg, "hello");
}

#[test]
fn tab_toggles_the_active_module() {
    let mut app = app();
    assert!(handle_active_modules(&mut app, Key::Tab));
    assert_eq!(app.active_modules, ActiveModules::PlayList);
    assert!(handle_active_modules(&mut app, Key::Tab));
    assert_eq!(app.active_modules, ActiveModules::Fs);
    assert!(!handle_active_modules(&mut app, Key::Enter));
    assert_eq!(app.active_modules, ActiveModules::Fs);
}

#[test]
fn volume_steps() {
    assert_eq!(quieter(100), 95);
    assert_eq!(quieter(5), 0);
    assert_eq!(quieter(3), 0);
    assert_eq!(quieter(0), 0);
    assert_eq!(louder(0), 5);
    assert_eq!(louder(90), 95);
    assert_eq!(louder(95), 100);
    assert_eq!(louder(98), 100);
    assert_eq!(louder(100), 100);
    assert_eq!(louder(255), 100);
}

#[test]
fn volume_keys_step_and_clamp() {
    let mut app = app();
    assert!(handle_player(&mut app, Key::Char('-')));
    assert_eq!(app.player.volume(), 95);
    assert!(handle_player(&mut app, Key::Char('=')));
    assert_eq!(app.player.volume(), 100);
    assert!(handle_player(&mut app, Key::Char('=')));
    assert_eq!(app.player.volume(), 100);
    assert_eq!(
        app.player.take_commands(),
        vec![SinkCommand::SetVolume(95), SinkCommand::SetVolume(100), SinkCommand::SetVolume(100)]
    );
    assert!(!handle_player(&mut app, Key::Char('+')));
    assert!(!handle_player(&mut app, Key::Up));
    assert_eq!(app.player.volume(), 100);
}

#[test]
fn volume_set_by_keys_survives_next() {
    let mut app = app_with_tracks();
    handle_player(&mut app, Key::Char('-'));
    handle_player(&mut app, Key::Char('='));
    assert_eq!(app.player.volume(), 100);
    assert!(handle_music_controller(&mut app, Key::Char('n'), SECOND));
    assert!(app.player.sink_acquired(SECOND));
    assert_eq!(app.player.volume(), 100);
    assert!(app.player.take_commands().contains(&SinkCommand::SetVolume(100)));
}

#[test]
fn s_key_pauses_and_resumes() {
    let mut app = app_with_tracks();
    assert!(handle_music_controller(&mut app, Key::Char('s'), 4 * SECOND));
    assert_eq!(app.player.status(), PlayStatus::Stopped(4 * SECOND));
    assert!(handle_music_controller(&mut app, Key::Char('S'), 9 * SECOND));
    assert_eq!(app.player.status(), PlayStatus::Playing(9 * SECOND, 4 * SECOND));
    assert_eq!(app.player.take_commands(), vec![SinkCommand::Pause, SinkCommand::Play]);
}

#[test]
fn n_key_goes_to_the_next_track() {
    let mut app = app_with_tracks();
    assert!(handle_music_controller(&mut app, Key::Char('N'), SECOND));
    assert_eq!(app.player.pending(), Some(1));
    assert!(!handle_music_controller(&mut app, Key::Char('x'), SECOND));
    assert!(!handle_music_controller(&mut app, Key::Enter, SECOND));
}

#[test]
fn positions_go_round() {
    assert_eq!(below(0, 2), 1);
    assert_eq!(below(2, 2), 0);
    assert_eq!(below(7, 2), 2);
    assert_eq!(below(0, 0), 0);
    assert_eq!(above(0, 2), 2);
    assert_eq!(above(2, 2), 1);
    assert_eq!(above(0, 0), 0);
}

#[test]
fn playlist_keys_need_the_playlist_active() {
    let mut app = app_with_tracks();
    assert!(!handle_playlist(&mut app, Key::Down));
    assert_eq!(app.player.play_list().cursor(), Some(0));
}

#[test]
fn playlist_arrows_move_the_cursor_round() {
    let mut app = app_with_tracks();
    app.active_modules = ActiveModules::PlayList;
    for expected in [1, 2, 0] {
        assert!(handle_playlist(&mut app, Key::Down));
        assert_eq!(app.player.play_list().cursor(), Some(expected));
    }
    for expected in [2, 1, 0] {
        assert!(handle_playlist(&mut app, Key::Up));
        assert_eq!(app.player.play_list().cursor(), Some(expected));
    }
}

#[test]
fn down_on_the_last_entry_wraps_the_cursor_and_leaves_what_plays() {
    let mut app = app_with_tracks();
    app.active_modules = ActiveModules::PlayList;
    assert!(app.player.play_selected(1));
    assert!(app.player.sink_acquired(SECOND));
    app.player.take_commands();
    assert!(app.player.set_cursor(2));
    assert!(handle_playlist(&mut app, Key::Down));
    assert_eq!(app.player.play_list().cursor(), Some(0));
    assert_eq!(app.player.play_list().len(), 3);
    assert_eq!(app.player.play_list().selected(), Some(1));
    assert_eq!(app.player.playing_track_name(), Some("two.mp3".to_string()));
    assert_eq!(app.player.status(), PlayStatus::Playing(SECOND, 0));
    assert!(app.player.take_commands().is_empty());
}

#[test]
fn playlist_enter_plays_the_selected_entry() {
    let mut app = app_with_tracks();
    app.active_modules = ActiveModules::PlayList;
    handle_playlist(&mut app, Key::Down);
    assert!(!handle_playlist(&mut app, Key::Enter));
    assert_eq!(app.player.pending(), Some(1));
    assert_eq!(app.player.take_commands(), vec![SinkCommand::Stop, SinkCommand::Load(1)]);
}

#[test]
fn playlist_r_removes_the_selected_entry() {
    let mut app = app_with_tracks();
    app.active_modules = ActiveModules::PlayList;
    handle_playlist(&mut app, Key::Down);
    assert!(!handle_playlist(&mut app, Key::Char('r')));
    assert_eq!(app.player.track_names(), vec!["one.mp3", "three.mp3"]);
    assert_eq!(app.player.play_list().cursor(), Some(0));
    assert_eq!(app.player.play_list().selected(), Some(0));
    assert!(!handle_playlist(&mut app, Key::Char('R')));
    assert_eq!(app.player.track_names(), vec!["three.mp3"]);
}

#[test]
fn playlist_keys_on_an_empty_playlist_do_nothing() {
    let mut app = app();
    app.active_modules = ActiveModules::PlayList;
    assert!(!handle_playlist(&mut app, Key::Down));
    assert!(!handle_playlist(&mut app, Key::Up));
    assert!(!handle_playlist(&mut app, Key::Enter));
    assert!(!handle_playlist(&mut app, Key::Char('r')));
    assert_eq!(app.player.play_list().selected(), None);
    assert_eq!(app.player.play_list().cursor(), None);
    assert!(app.player.take_commands().is_empty());
}

#[test]
fn play_and_remove_by_position() {
    let mut app = app_with_tracks();
    assert!(play_selected_song(&mut app, 2));
    assert_eq!(app.player.pending(), Some(2));
    assert!(!play_selected_song(&mut app, 3));
    assert!(remove_from_playlist(&mut app, 0));
    assert!(!remove_from_playlist(&mut app, 2));
    assert_eq!(app.player.play_list().len(), 2);
}

#[test]
fn fs_arrows_move_the_cursor() {
    let mut app = app();
    assert!(handle_fs(&mut app, Key::Down));
    assert_eq!(app.fs.selected(), Some(1));
    assert!(handle_fs(&mut app, Key::Up));
    assert!(handle_fs(&mut app, Key::Up));
    assert_eq!(app.fs.selected(), Some(5));
    assert!(handle_fs(&mut app, Key::Down));
    assert_eq!(app.fs.selected(), Some(0));
    assert!(!handle_fs(&mut app, Key::Enter));
}

#[test]
fn fs_keys_need_the_browser_active() {
    let mut app = app();
    app.active_modules = ActiveModules::PlayList;
    assert!(!handle_fs(&mut app, Key::Down));
    assert!(!handle_fs(&mut app, Key::Right));
    assert_eq!(app.fs.selected(), Some(0));
    assert!(app.take_requests().is_empty());
}

#[test]
fn picking_the_top_asks_for_the_parent() {
    let mut app = app();
    assert!(!handle_fs(&mut app, Key::Right));
    assert_eq!(app.take_requests(), vec![FsRequest::Ascend]);
    assert!(app.take_requests().is_empty());
}

#[test]
fn picking_a_directory_asks_to_enter_it() {
    let mut app = app();
    app.fs.select(Some(2));
    assert!(add_media_to_player(&mut app, false));
    assert_eq!(app.take_requests(), vec![FsRequest::Descend(1)]);
}

#[test]
fn picking_a_file_asks_to_inspect_it() {
    let mut app = app();
    app.fs.select(Some(3));
    assert!(!handle_fs(&mut app, Key::Left));
    assert_eq!(app.take_requests(), vec![FsRequest::Inspect { file: 0, once: false }]);
}

#[test]
fn picking_a_file_once_asks_for_all_that_follow() {
    let mut app = app();
    app.fs.select(Some(3));
    assert!(add_media_to_player(&mut app, true));
    assert_eq!(
        app.take_requests(),
        vec![
            FsRequest::Inspect { file: 0, once: true },
            FsRequest::Inspect { file: 1, once: true },
            FsRequest::Inspect { file: 2, once: true },
        ]
    );
    app.fs.select(Some(5));
    assert!(add_media_to_player(&mut app, true));
    assert_eq!(app.take_requests(), vec![FsRequest::Inspect { file: 2, once: true }]);
}

#[test]
fn picking_with_no_cursor_sets_it() {
    let mut app = app();
    app.fs.select(None);
    assert!(!add_media_to_player(&mut app, false));
    assert_eq!(app.fs.selected(), Some(0));
    assert!(app.take_requests().is_empty());
}

#[test]
fn picking_beyond_the_entries_asks_nothing() {
    let mut app = app();
    app.fs.select(Some(6));
    assert!(!add_media_to_player(&mut app, false));
    assert!(app.take_requests().is_empty());
}

#[test]
fn entered_shows_the_new_directory() {
    let mut app = app();
    app.fs.select(Some(1));
    app.entered("/music/albums".to_string(), Some(vec![item("x.mp3", Some("mp3"), false)]));
    assert_eq!(app.fs.current_path(), "/music/albums");
    assert_eq!(app.fs.selected(), Some(0));
    assert_eq!(app.fs.files(), &vec!["x.mp3".to_string()]);
}

#[test]
fn inspected_file_is_added_and_announced() {
    let mut app = app();
    assert!(app.file_inspected(1, false, measured(30), 0));
    assert_eq!(app.msg, "Start playing");
    assert_eq!(app.player.track_names(), vec!["two.mp3"]);
    assert_eq!(app.player.playing_song().unwrap().path, "two.mp3");
    assert_eq!(app.player.playing_song().unwrap().duration, 30 * SECOND);
}

#[test]
fn inspected_file_that_fails_is_announced() {
    let mut app = app();
    let report = SourceReport { readable: false, probe: Probe::Partial(0) };
    assert!(!app.file_inspected(2, false, report, 0));
    assert_eq!(app.msg, "Open failed: three.mp3");
    assert!(app.player.play_list().is_empty());
    let report = SourceReport { readable: true, probe: Probe::Partial(0) };
    assert!(!app.file_inspected(0, false, report, 0));
    assert_eq!(app.msg, "Open failed: one.mp3");
}

#[test]
fn inspected_file_out_of_range_changes_nothing() {
    let mut app = app();
    assert!(!app.file_inspected(3, false, measured(30), 0));
    assert_eq!(app.msg, "Welcome to wy-media");
    assert!(app.player.play_list().is_empty());
}

#[test]
fn reported_sink_starts_the_track() {
    let mut app = app();
    assert!(app.file_inspected(0, false, measured(30), 0));
    assert!(app.sink_reported(Ok(()), SECOND));
    assert_eq!(app.player.status(), PlayStatus::Playing(SECOND, 0));
    assert_eq!(app.msg, "Start playing");
    assert!(!app.sink_reported(Ok(()), 2 * SECOND));
    assert_eq!(app.player.status(), PlayStatus::Playing(SECOND, 0));
}

#[test]
fn missing_device_is_announced() {
    let mut app = app_with_tracks();
    assert!(app.player.next());
    assert!(!app.sink_reported(Err(PlaybackError::DeviceUnavailable), SECOND));
    assert_eq!(app.msg, "No output device");
    assert_eq!(app.player.sink(), SinkState::Absent);
    assert_eq!(app.player.pending(), None);
    assert_eq!(app.player.play_list().selected(), Some(0));
}

#[test]
fn unreadable_file_at_load_is_announced_as_such() {
    let mut app = app_with_tracks();
    assert!(app.player.next());
    assert!(!app.sink_reported(Err(PlaybackError::UnreadableSource), SECOND));
    assert_eq!(app.msg, "Open failed: unreadable source");
    assert_eq!(app.player.sink(), SinkState::Absent);
    assert_eq!(app.player.play_list().selected(), Some(0));
}

#[test]
fn timer_event_ticks_the_player() {
    let mut app = app_with_tracks();
    app.handle_events(EventType::Player, 4 * SECOND);
    assert_eq!(app.player.get_progress(), (4 * SECOND, 10 * SECOND));
    app.handle_events(EventType::Radio, 5 * SECOND);
    assert_eq!(app.player.get_progress(), (4 * SECOND, 10 * SECOND));
    app.handle_events(EventType::Player, 10 * SECOND);
    assert_eq!(app.player.pending(), Some(1));
}

#[test]
fn keyboard_tab_only_toggles() {
    let mut app = app_with_tracks();
    handle_keyboard_event(&mut app, Key::Tab, SECOND);
    assert_eq!(app.active_modules, ActiveModules::PlayList);
    assert_eq!(app.player.status(), PlayStatus::Playing(0, 0));
    assert!(app.player.take_commands().is_empty());
}

#[test]
fn keyboard_in_browser_reaches_volume_and_transport() {
    let mut app = app_with_tracks();
    handle_keyboard_event(&mut app, Key::Char('-'), SECOND);
    assert_eq!(app.player.volume(), 95);
    handle_keyboard_event(&mut app, Key::Char('s'), 2 * SECOND);
    assert_eq!(app.player.status(), PlayStatus::Stopped(2 * SECOND));
    assert_eq!(app.player.sink(), SinkState::Ready { paused: true });
    handle_keyboard_event(&mut app, Key::Down, 3 * SECOND);
    assert_eq!(app.fs.selected(), Some(1));
    handle_keyboard_event(&mut app, Key::Right, 3 * SECOND);
    assert_eq!(app.take_requests(), vec![FsRequest::Descend(0)]);
}

#[test]
fn keyboard_in_playlist_reaches_only_the_playlist() {
    let mut app = app_with_tracks();
    handle_keyboard_event(&mut app, Key::Tab, SECOND);
    handle_keyboard_event(&mut app, Key::Char('-'), SECOND);
    assert_eq!(app.player.volume(), 100);
    handle_keyboard_event(&mut app, Key::Char('s'), SECOND);
    assert_eq!(app.player.status(), PlayStatus::Playing(0, 0));
    handle_keyboard_event(&mut app, Key::Down, SECOND);
    assert_eq!(app.player.play_list().cursor(), Some(1));
    assert_eq!(app.player.play_list().selected(), Some(0));
    assert_eq!(app.fs.selected(), Some(0));
    handle_keyboard_event(&mut app, Key::Enter, SECOND);
    assert_eq!(app.player.pending(), Some(1));
}
