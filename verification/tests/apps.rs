use waveshare_watch::apps::flappy::{crashed, fmt_u32, random_gap};
use waveshare_watch::apps::game2048::{fmt_num, fmt_tile, slide_row, Game2048};
use waveshare_watch::apps::maze::{find_cell, is_goal, is_wall, GOAL, START};
use waveshare_watch::apps::mp3player::{fmt_track, Mp3Player, PlayerState};
use waveshare_watch::apps::recorder::{fmt_bytes, fmt_path, RecorderApp, RecorderState};
use waveshare_watch::apps::rng::{random_below, xorshift_next};
use waveshare_watch::apps::settings::{SettingsApp, SettingsField};
use waveshare_watch::apps::smarthome::{ApiButton, ButtonState, HttpMethod, SmartHomeApp};
use waveshare_watch::apps::snake::{format_score, Direction, Point, SnakeGame};
use waveshare_watch::apps::tetris::{fmt_num as tetris_num, row_is_full, TetrisGame, Tilt};
use waveshare_watch::apps::{AppResult, AppState};
use waveshare_watch::peripherals::touch::SwipeDirection;
use waveshare_watch::peripherals::wifi::WifiState;

fn xorshift(mut s: u32) -> u32 {
    s ^= s << 13;
    s ^= s >> 17;
    s ^= s << 5;
    s
}

// ---------------------------------------------------------------- rng

#[test]
fn rng_matches_xorshift32() {
    assert_eq!(xorshift_next(1), 270369);
    assert_eq!(xorshift_next(12345), xorshift(12345));
    let mut s = 99u32;
    let r = random_below(&mut s, 10);
    assert_eq!(s, xorshift(99));
    assert_eq!(r, (xorshift(99) & 0x7FFF_FFFF) % 10);
}

// ---------------------------------------------------------------- 2048

#[test]
fn slide_row_compacts_and_merges_once() {
    let mut row = [2u16, 2, 2, 2];
    assert_eq!(slide_row(&mut row), (true, 8));
    assert_eq!(row, [4, 4, 0, 0]);
    let mut row = [0u16, 2, 0, 2];
    assert_eq!(slide_row(&mut row), (true, 4));
    assert_eq!(row, [4, 0, 0, 0]);
    let mut row = [4u16, 2, 4, 2];
    assert_eq!(slide_row(&mut row), (false, 0));
    assert_eq!(row, [4, 2, 4, 2]);
    let mut row = [8u16, 8, 16, 0];
    assert_eq!(slide_row(&mut row), (true, 16));
    assert_eq!(row, [16, 16, 0, 0]);
}

#[test]
fn slide_keeps_tile_total() {
    let rows = [[2u16, 2, 4, 8], [0, 0, 0, 2], [16, 16, 16, 16], [2, 4, 8, 16]];
    for r in rows.iter() {
        let before: u32 = r.iter().map(|&v| v as u32).sum();
        let mut row = *r;
        slide_row(&mut row);
        let after: u32 = row.iter().map(|&v| v as u32).sum();
        assert_eq!(before, after);
    }
}

#[test]
fn game2048_starts_with_two_tiles() {
    let g = Game2048::new();
    let filled = g.tiles.iter().filter(|&&t| t != 0).count();
    assert_eq!(filled, 2);
    assert!(g.tiles.iter().all(|&t| t == 0 || t == 2 || t == 4));
    assert_eq!(g.score, 0);
    assert!(!g.game_over);
}

#[test]
fn game2048_move_left_merges_and_spawns() {
    let mut g = Game2048::new();
    g.tiles = [0; 16];
    g.tiles[0] = 2;
    g.tiles[1] = 2;
    g.tiles[4] = 4;
    let r = g.update(Some(SwipeDirection::Left));
    assert_eq!(r, AppResult::Continue);
    assert!(g.moved);
    assert_eq!(g.score, 4);
    assert_eq!(g.tile(0, 0), 4);
    assert_eq!(g.tile(1, 0), 4);
    // one new tile appeared somewhere else
    let filled = g.tiles.iter().filter(|&&t| t != 0).count();
    assert_eq!(filled, 3);
}

#[test]
fn game2048_blocked_move_changes_nothing() {
    let mut g = Game2048::new();
    g.tiles = [0; 16];
    g.tiles[0] = 2;
    g.tiles[4] = 4;
    let before = g.tiles;
    g.do_move(SwipeDirection::Left);
    assert!(!g.moved);
    assert_eq!(g.tiles, before);
    assert_eq!(g.score, 0);
}

#[test]
fn game2048_move_down_and_right() {
    let mut g = Game2048::new();
    g.tiles = [0; 16];
    g.tiles[0] = 8; // (0,0)
    g.tiles[12] = 8; // (3,0)
    assert!(g.slide_board(SwipeDirection::Down));
    assert_eq!(g.tile(3, 0), 16);
    assert_eq!(g.tile(0, 0), 0);
    g.tiles = [0; 16];
    g.tiles[4] = 2; // (1,0)
    assert!(g.slide_board(SwipeDirection::Right));
    assert_eq!(g.tile(1, 3), 2);
}

#[test]
fn game2048_labels_and_colors() {
    assert_eq!(fmt_num(b"SCORE:", 128), b"SCORE:128".to_vec());
    assert_eq!(fmt_num(b"SCORE:", 123456), b"SCORE:23456".to_vec());
    assert_eq!(fmt_num(b"\xFF", 1), b"?".to_vec());
    assert_eq!(fmt_tile(2048), b"2048".to_vec());
    assert_eq!(fmt_tile(16384), b"6384".to_vec());
    assert_ne!(Game2048::tile_color(2), Game2048::tile_color(4));
    assert_eq!(Game2048::tile_color(0), Game2048::tile_color(4096));
}

// ---------------------------------------------------------------- tetris

#[test]
fn tetris_new_game_state() {
    let g = TetrisGame::new();
    assert_eq!(g.score, 0);
    assert_eq!(g.lines, 0);
    assert!(!g.game_over);
    assert!(g.grid.iter().all(|row| row.iter().all(|&c| c == 0)));
    assert_eq!(g.drop_interval_ms(), 700);
}

#[test]
fn tetris_rows_and_labels() {
    assert!(row_is_full(&[1; 12]));
    let mut row = [3u8; 12];
    row[5] = 0;
    assert!(!row_is_full(&row));
    assert_eq!(tetris_num(0), b"0".to_vec());
    assert_eq!(tetris_num(123456), b"23456".to_vec());
}

#[test]
fn tetris_drop_interval_speeds_up() {
    let mut g = TetrisGame::new();
    g.lines = 10;
    assert_eq!(g.drop_interval_ms(), 400);
    g.lines = 30;
    assert_eq!(g.drop_interval_ms(), 150);
}

#[test]
fn tetris_moves_sideways_until_wall() {
    let mut g = TetrisGame::new();
    let x0 = g.px;
    if g.try_move(-1) {
        assert_eq!(g.px, x0 - 1);
    }
    let mut moves = 0;
    while g.try_move(1) {
        moves += 1;
        assert!(moves < 20);
    }
    assert!(!g.try_move(1));
}

#[test]
fn tetris_hard_drop_locks_piece() {
    let mut g = TetrisGame::new();
    let r = g.update(Some(SwipeDirection::Down), false, Tilt::Level, 0);
    assert_eq!(r, AppResult::Continue);
    let filled: usize = g.grid.iter().map(|row| row.iter().filter(|&&c| c != 0).count()).sum();
    assert_eq!(filled, 4);
    assert!(g.stepped());
}

#[test]
fn tetris_clears_full_row_and_scores() {
    let mut g = TetrisGame::new();
    // Fill the bottom row except where an I piece dropped vertically lands.
    g.grid = [[0; 12]; 16];
    g.piece = 0; // I
    g.rot = 0;
    g.px = 0;
    g.py = 0;
    // The vertical I occupies column px + 1.
    for c in 0..12 {
        if c != 1 {
            g.grid[15][c] = 2;
        }
    }
    g.update(Some(SwipeDirection::Down), false, Tilt::Level, 0);
    assert_eq!(g.lines, 1);
    assert_eq!(g.score, 100);
    assert!(g.grid.iter().all(|row| !row_is_full(row)));
}

#[test]
fn tetris_tilt_moves_after_150ms() {
    let mut g = TetrisGame::new();
    let x0 = g.px;
    g.update(None, false, Tilt::Left, 100);
    assert_eq!(g.px, x0);
    g.update(None, false, Tilt::Left, 60);
    assert_eq!(g.px, x0 - 1);
}

#[test]
fn tetris_visible_cells_shadow_then_piece() {
    let mut g = TetrisGame::new();
    g.grid = [[0; 12]; 16];
    g.piece = 0; // I, vertical in column 1 of its box
    g.rot = 0;
    g.px = 0;
    g.py = 0;
    assert_eq!(
        g.visible_cells(),
        vec![(1, 12, true), (1, 13, true), (1, 14, true), (1, 15, true), (1, 0, false), (1, 1, false), (1, 2, false), (1, 3, false)]
    );
    g.py = -2;
    assert_eq!(
        g.visible_cells(),
        vec![(1, 12, true), (1, 13, true), (1, 14, true), (1, 15, true), (1, 0, false), (1, 1, false)]
    );
    g.py = 12;
    assert_eq!(g.visible_cells(), vec![(1, 12, false), (1, 13, false), (1, 14, false), (1, 15, false)]);
    g.game_over = true;
    assert_eq!(g.visible_cells(), vec![]);
}

#[test]
fn tetris_game_over_handles_any_counters() {
    let mut g = TetrisGame::new();
    g.game_over = true;
    g.score = u32::MAX;
    g.lines = u32::MAX;
    g.drop_timer = u32::MAX;
    assert!(g.frame_fits_check(Some(SwipeDirection::Down), Tilt::Left, u32::MAX));
    g.update(Some(SwipeDirection::Down), false, Tilt::Left, u32::MAX);
    assert!(g.game_over && !g.stepped());
    assert_eq!(g.score, u32::MAX);
    g.update(None, true, Tilt::Level, u32::MAX);
    assert!(!g.game_over && g.stepped());
    assert_eq!((g.score, g.lines, g.drop_timer), (0, 0, 0));
    assert!(g.grid.iter().all(|row| row.iter().all(|&c| c == 0)));
}

#[test]
fn tetris_frame_fits_only_on_real_overflow() {
    let mut g = TetrisGame::new();
    g.drop_timer = u32::MAX - 10;
    assert!(g.frame_fits_check(None, Tilt::Level, 10));
    assert!(!g.frame_fits_check(None, Tilt::Level, 11));
    let mut g = TetrisGame::new();
    g.score = u32::MAX;
    // Nothing settles, so a full score is no obstacle.
    assert!(g.frame_fits_check(None, Tilt::Level, 0));
    // A hard drop on an empty field clears no row and adds nothing.
    assert!(g.frame_fits_check(Some(SwipeDirection::Down), Tilt::Level, 0));
    g.lines = 71582788;
    assert!(g.frame_fits_check(None, Tilt::Level, 0));
    g.lines = 71582789;
    assert!(!g.frame_fits_check(None, Tilt::Level, 0));
}

#[test]
fn tetris_frame_fits_scoring_drop() {
    let mut g = TetrisGame::new();
    g.grid = [[0; 12]; 16];
    g.piece = 0;
    g.rot = 0;
    g.px = 0;
    g.py = 0;
    for c in 0..12 {
        if c != 1 {
            g.grid[15][c] = 2;
        }
    }
    g.score = u32::MAX - 100;
    assert!(g.frame_fits_check(Some(SwipeDirection::Down), Tilt::Level, 0));
    g.score = u32::MAX - 99;
    assert!(!g.frame_fits_check(Some(SwipeDirection::Down), Tilt::Level, 0));
    assert!(g.frame_fits_check(None, Tilt::Level, 0));
}

// ---------------------------------------------------------------- snake

#[test]
fn snake_new_game() {
    let g = SnakeGame::new();
    assert_eq!(g.len, 3);
    assert_eq!(g.snake[0], Point { x: 10, y: 10 });
    assert_eq!(g.dir, Direction::Up);
    assert_eq!(g.score(), 0);
    let r1 = xorshift(12345);
    let r2 = xorshift(r1);
    assert_eq!(g.food, Point { x: ((r1 & 0x7FFF_FFFF) % 20) as i32, y: ((r2 & 0x7FFF_FFFF) % 21) as i32 });
}

#[test]
fn snake_steps_every_130ms() {
    let mut g = SnakeGame::new();
    g.food = Point { x: 0, y: 0 };
    g.update(None, 100);
    assert!(!g.stepped());
    assert_eq!(g.snake[0], Point { x: 10, y: 10 });
    g.update(None, 30);
    assert!(g.stepped());
    assert_eq!(g.snake[0], Point { x: 10, y: 9 });
    assert_eq!(g.snake[1], Point { x: 10, y: 10 });
}

#[test]
fn snake_turns_and_wraps() {
    let mut g = SnakeGame::new();
    g.food = Point { x: 0, y: 0 };
    g.update(Some(SwipeDirection::Left), 130);
    assert_eq!(g.snake[0], Point { x: 9, y: 10 });
    g.snake[0] = Point { x: 0, y: 10 };
    g.update(None, 130);
    assert_eq!(g.snake[0].x, 19);
}

#[test]
fn snake_eats_nearby_food() {
    let mut g = SnakeGame::new();
    g.food = Point { x: 11, y: 9 };
    g.update(None, 130);
    assert_eq!(g.score(), 10);
    assert_eq!(g.len, 4);
    assert_eq!(format_score(10), b"SCORE: 10".to_vec());
    assert_eq!(format_score(123456), b"SCORE: 3456".to_vec());
}

#[test]
fn snake_full_score_only_matters_when_eating() {
    let mut g = SnakeGame::new();
    g.food = Point { x: 0, y: 0 };
    g.score = u32::MAX;
    assert!(g.frame_fits_check(None, 130));
    g.update(None, 130);
    assert_eq!(g.score(), u32::MAX);
    assert!(g.stepped());
    g.food = Point { x: 11, y: 8 };
    assert!(g.frame_fits_check(None, 100));
    assert!(!g.frame_fits_check(None, 130));
    assert!(g.frame_fits_check(Some(SwipeDirection::Left), 130));
    g.time_accum = u32::MAX - 5;
    assert!(!g.frame_fits_check(None, 6));
}

// ---------------------------------------------------------------- maze

#[test]
fn maze_cells() {
    assert_eq!(find_cell(START), (1, 1));
    assert_eq!(find_cell(GOAL), (8, 10));
    assert_eq!(find_cell(9), (1, 1));
    assert!(is_wall(0, 0));
    assert!(!is_wall(1, 1));
    assert!(is_wall(-1, 3));
    assert!(is_wall(10, 3));
    assert!(is_goal(8, 10));
    assert!(!is_goal(1, 1));
    assert!(!is_goal(20, 1));
}

// ---------------------------------------------------------------- flappy

#[test]
fn flappy_gap_and_crash() {
    let mut rng = 99999u32;
    let g = random_gap(&mut rng);
    assert_eq!(rng, xorshift(99999));
    assert_eq!(g, 120 + ((xorshift(99999) & 0x7FFF_FFFF) % 208) as i32);
    let far = [(1000, 224), (1200, 224), (1400, 224)];
    assert!(!crashed(224, &far));
    assert!(crashed(10, &far));
    assert!(crashed(420, &far));
    let near = [(80, 224), (1200, 224), (1400, 224)];
    assert!(!crashed(224, &near));
    assert!(crashed(150, &near));
    assert_eq!(fmt_u32(7), b"7".to_vec());
    assert_eq!(fmt_u32(1234), b"234".to_vec());
}

// ---------------------------------------------------------------- mp3 player

#[test]
fn mp3_player_controls() {
    let mut p = Mp3Player::new();
    p.setup();
    assert_eq!(p.track_name_str(), "No tracks found");
    p.set_track_count(3);
    p.set_track_index(7);
    assert_eq!(p.track_index(), 2);
    p.update(true, None);
    assert_eq!(p.state(), PlayerState::Playing);
    p.update(true, Some(SwipeDirection::Right));
    assert_eq!(p.state(), PlayerState::Paused);
    assert_eq!(p.track_index(), 0);
    p.set_progress(150);
    assert_eq!(p.progress, 100);
}

#[test]
fn mp3_track_label() {
    assert_eq!(fmt_track(3, 12), b"Track 3/12".to_vec());
    assert_eq!(fmt_track(0, 0), b"Track 0/0".to_vec());
    // a tens byte past ASCII makes the label unreadable
    assert_eq!(fmt_track(900, 1), b"Track ?/?".to_vec());
}

#[test]
fn mp3_track_name_cut_and_fallback() {
    let mut p = Mp3Player::new();
    p.set_track_name("song.mp3");
    assert_eq!(p.track_name_str(), "song.mp3");
    p.set_track_name("0123456789012345678901234567890é");
    assert_eq!(p.track_name_len, 32);
    assert_eq!(p.track_name_str(), "???");
}

// ---------------------------------------------------------------- recorder

#[test]
fn recorder_lifecycle() {
    let mut r = RecorderApp::new();
    assert_eq!(r.file_name_str(), "--.PCM");
    assert_eq!(r.status_str(), "Tap to record");
    assert!(!r.take_toggle_request());
    r.update(true);
    assert!(r.take_toggle_request());
    assert!(!r.take_toggle_request());
    r.set_recording("REC01.PCM");
    assert_eq!(r.state(), RecorderState::Recording);
    assert_eq!(r.status_str(), "Recording");
    r.add_bytes(1000);
    r.add_bytes(24);
    assert_eq!(r.bytes_written, 1024);
    r.add_bytes(usize::MAX);
    assert_eq!(r.bytes_written, u32::MAX);
    r.set_stopped();
    assert_eq!(r.state(), RecorderState::Stopped);
    assert_eq!(r.status_str(), "Saved");
    r.set_error("SD fail");
    assert_eq!(r.state(), RecorderState::Error);
    assert_eq!(r.status_str(), "SD fail");
    r.setup();
    assert_eq!(r.state(), RecorderState::Stopped);
    assert_eq!(r.bytes_written, 0);
}

#[test]
fn recorder_labels() {
    assert_eq!(fmt_path("REC01.PCM"), b"/mp3/rec01.pcm".to_vec());
    assert_eq!(fmt_path("ABCDEFGHIJKLMNOPQRSTUVWXYZ"), b"/mp3/abcdefghijklmnopqrs".to_vec());
    assert_eq!(fmt_path("aaaaaaaaaaaaaaaaaaé"), b"/mp3/??.pcm".to_vec());
    assert_eq!(fmt_bytes(0), b"Bytes 0".to_vec());
    assert_eq!(fmt_bytes(4294967295), b"Bytes 4294967295".to_vec());
}

// ---------------------------------------------------------------- smart home

#[test]
fn smart_home_default_buttons() {
    let app = SmartHomeApp::new();
    assert_eq!(app.count, 6);
    assert_eq!(app.buttons[0].name_str(), "Salon Light");
    assert_eq!(app.buttons[2].method, HttpMethod::Post);
    assert_eq!(&app.buttons[5].url[..app.buttons[5].url_len], b"http://example.com/api");
}

#[test]
fn smart_home_tap_cycles_and_sends() {
    let mut app = SmartHomeApp::new();
    assert!(app.get_pending_request().is_none());
    app.update(None, true);
    {
        let (idx, url) = app.get_pending_request().unwrap();
        assert_eq!(idx, 0);
        assert_eq!(url, "http://192.168.1.10/api/toggle/1");
    }
    assert_eq!(app.buttons[0].state, ButtonState::Sending);
    assert_eq!(app.buttons[0].response_str(), "...");
    app.update(None, true);
    app.update(None, true);
    let (idx, _) = app.get_pending_request().unwrap();
    assert_eq!(idx, 1);
    app.set_response(0, "200", true);
    assert_eq!(app.buttons[0].state, ButtonState::Success);
    assert_eq!(app.buttons[0].response_str(), "200");
    app.set_response(1, "", false);
    assert_eq!(app.buttons[1].response_str(), "ERR");
    app.set_response(9, "x", true);
    app.setup();
    assert_eq!(app.buttons[0].state, ButtonState::Idle);
    assert_eq!(app.buttons[0].response_str(), "");
}

#[test]
fn smart_home_scrolls_within_list() {
    let mut app = SmartHomeApp::new();
    app.update(Some(SwipeDirection::Up), false);
    // 6 buttons * 61 - (448 - 55 - 36) = 9
    assert_eq!(app.scroll_offset, 9);
    app.update(Some(SwipeDirection::Down), false);
    assert_eq!(app.scroll_offset, 0);
    assert_eq!(app.update(None, false), AppResult::Continue);
}

#[test]
fn smart_home_button_limit() {
    let mut app = SmartHomeApp::new();
    app.add_button("A", "http://a/", HttpMethod::Get);
    app.add_button("B", "http://b/", HttpMethod::Get);
    app.add_button("C", "http://c/", HttpMethod::Get);
    assert_eq!(app.count, 8);
    let b = ApiButton::new("A very long button name", "u", HttpMethod::Get);
    assert_eq!(b.name_len, 16);
    assert_eq!(b.name_str(), "A very long butt");
    assert_eq!(ApiButton::empty().name_len, 0);
}

// ---------------------------------------------------------------- settings

#[test]
fn settings_edit_ssid_with_keyboard() {
    let mut s = SettingsApp::new();
    assert!(!s.keyboard.is_active());
    assert!(s.handle_tap(100, 80));
    assert!(s.keyboard.is_active());
    // key "2 abc" is the middle key of the first row
    assert!(s.handle_tap(200, 280));
    assert!(s.handle_tap(200, 280));
    assert_eq!(s.wifi_config.ssid_str(), "b");
    s.update(800);
    assert!(s.handle_tap(200, 280));
    assert_eq!(s.wifi_config.ssid_str(), "ba");
    // tap above the keyboard closes it
    assert!(s.handle_tap(100, 150));
    assert!(!s.keyboard.is_active());
}

#[test]
fn settings_connect_button() {
    let mut s = SettingsApp::new();
    assert!(s.handle_tap(184, 200));
    assert_eq!(s.wifi_state, WifiState::Connecting);
    assert!(s.handle_tap(184, 200));
    assert_eq!(s.wifi_state, WifiState::Connecting);
    assert!(!s.handle_tap(184, 240));
}

#[test]
fn settings_field_and_button_looks() {
    let mut s = SettingsApp::new();
    assert_eq!(s.field_background(SettingsField::Ssid), (2 << 11) | (4 << 5) | 2);
    s.editing = true;
    assert_eq!(s.field_background(SettingsField::Ssid), (3 << 11) | (6 << 5) | 3);
    assert_eq!(s.field_background(SettingsField::Password), (2 << 11) | (4 << 5) | 2);
    assert_eq!(s.connect_button(), (0x001F, "CONNECT"));
    s.wifi_state = WifiState::Connecting;
    assert_eq!(s.connect_button(), (0xFFE0, "CONNECTING..."));
    s.wifi_state = WifiState::Connected;
    assert_eq!(s.connect_button(), (0x07E0, "CONNECTED"));
    s.wifi_state = WifiState::Error;
    assert_eq!(s.connect_button(), (0xF800, "RETRY"));
}

#[test]
fn mp3_progress_and_state_label() {
    let mut p = Mp3Player::new();
    assert_eq!(p.progress_fill_width(), 0);
    assert_eq!(p.state_label(), ("STOPPED", 0xF800));
    p.set_progress(50);
    assert_eq!(p.progress_fill_width(), 150);
    p.set_progress(33);
    assert_eq!(p.progress_fill_width(), 99);
    p.set_state(PlayerState::Playing);
    assert_eq!(p.state_label(), ("PLAYING", 0x07E0));
    p.set_state(PlayerState::Paused);
    assert_eq!(p.state_label(), ("PAUSED", 0xFFE0));
}

#[test]
fn recorder_state_label_and_hint() {
    let mut r = RecorderApp::new();
    assert_eq!(r.state_label(), ("STOPPED", 0x8410));
    assert_eq!(r.tap_hint(), "TAP: Start");
    r.set_recording("REC01.PCM");
    assert_eq!(r.state_label(), ("RECORDING", 0xF800));
    assert_eq!(r.tap_hint(), "TAP: Stop");
    r.set_error("SD full");
    assert_eq!(r.state_label(), ("ERROR", 0xFFE0));
    assert_eq!(r.tap_hint(), "TAP: Start");
}

#[test]
fn app_states_distinct() {
    assert_ne!(AppState::Snake, AppState::Tetris);
}
