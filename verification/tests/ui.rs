use waveshare_watch::apps::AppState;
use waveshare_watch::peripherals::touch::SwipeDirection;
use waveshare_watch::ui::color::{rgb565, BLACK, GREEN, RED, WHITE, YELLOW};
use waveshare_watch::ui::launcher::{glyph_pixel, menu_item, Launcher, GLYPH_SHE, GLYPH_ZHI, MENU_LEN};
use waveshare_watch::ui::pages::{fmt_axis, fmt_mv, fmt_temp, Page};
use waveshare_watch::ui::segments::{colon_rects, digit_rects, hhmm_rects, time_rects, FillRect};
use waveshare_watch::ui::t9_keyboard::T9Keyboard;
use waveshare_watch::ui::watchface::{
    battery_fill_color, battery_fill_width, cpu_button_color, fmt_bat_short, fmt_batt, fmt_date_fr,
    fmt_mhz_short, slider_fill_color, slider_fill_width, BallMove, FlushRegion, RenderOutcome, WatchFace,
    GYRO_CX, GYRO_CY,
};

// ---------------------------------------------------------------- colors

#[test]
fn rgb565_packing() {
    assert_eq!(rgb565(31, 63, 31), WHITE);
    assert_eq!(rgb565(31, 0, 0), RED);
    assert_eq!(rgb565(0, 63, 0), GREEN);
    assert_eq!(rgb565(0, 0, 0), BLACK);
    assert_eq!(rgb565(0xFF, 0, 0), RED);
    assert_eq!(rgb565(16, 32, 16), 0x8410);
}

// ---------------------------------------------------------------- watch face

#[test]
fn watchface_defaults() {
    let f = WatchFace::new();
    assert!(f.needs_render());
    assert_eq!(f.brightness, 0xA0);
    assert_eq!(f.cpu_mhz, 160);
    assert_eq!((f.day, f.month, f.year), (6, 4, 26));
    assert!(!f.gyro_enabled);
}

#[test]
fn watchface_render_clears_flags() {
    let mut f = WatchFace::new();
    let plan = f.render();
    assert!(plan.outcome.full_redraw);
    assert!(plan.ball.is_none());
    assert!(!f.needs_render());
    let plan = f.render();
    assert_eq!(plan.outcome, RenderOutcome::default());
}

#[test]
fn watchface_partial_redraw_regions() {
    let mut f = WatchFace::new();
    f.render();
    f.update_time(12, 34, 56);
    f.update_battery(80, 4000, false);
    let plan = f.render();
    assert!(!plan.outcome.full_redraw);
    assert_eq!(plan.outcome.time_region, Some(FlushRegion { x: 37, y: 56, w: 294, h: 72 }));
    assert_eq!(plan.outcome.battery_region, Some(FlushRegion { x: 64, y: 171, w: 240, h: 100 }));
    assert_eq!(plan.outcome.gyro_region, None);
    // same time again: nothing to redraw
    f.update_time(12, 34, 56);
    assert!(!f.needs_render());
}

#[test]
fn watchface_ball_moves_with_tilt() {
    let mut f = WatchFace::new();
    f.toggle_gyro();
    f.render();
    assert_eq!(WatchFace::projected_ball_position(0, 0), (GYRO_CX, GYRO_CY));
    assert_eq!(WatchFace::projected_ball_position(100, -100), (GYRO_CX + 38, GYRO_CY + 38));
    assert_eq!(WatchFace::projected_ball_position(-50, 50), (GYRO_CX - 19, GYRO_CY - 19));
    assert_eq!(WatchFace::projected_ball_position(-5, 0), (GYRO_CX, GYRO_CY - 1));
    f.update_accel(1, 0, 100);
    assert!(!f.needs_render());
    f.update_accel(50, 0, 100);
    assert!(f.needs_render());
    let plan = f.render();
    assert_eq!(plan.ball, Some(BallMove { old_x: GYRO_CX, old_y: GYRO_CY, new_x: GYRO_CX, new_y: GYRO_CY + 19 }));
    assert_eq!(plan.outcome.gyro_region, Some(FlushRegion { x: 195, y: 360, w: 20, h: 39 }));
    assert_eq!((f.prev_ball_x, f.prev_ball_y), (GYRO_CX, GYRO_CY + 19));
}

#[test]
fn watchface_ball_change_waits_while_dial_off() {
    let mut f = WatchFace::new();
    f.render();
    f.update_accel(100, 0, 0);
    assert!(f.needs_render());
    let plan = f.render();
    assert!(plan.ball.is_none());
    assert_eq!(plan.outcome, RenderOutcome::default());
    assert!(f.needs_render());
}

#[test]
fn watchface_zones() {
    assert!(WatchFace::is_wifi_zone(50, 300));
    assert!(!WatchFace::is_wifi_zone(200, 300));
    assert!(WatchFace::is_ble_zone(60, 250));
    assert!(WatchFace::is_cpu_zone(70, 340));
    assert!(WatchFace::is_apps_zone(200, 460));
    assert!(!WatchFace::is_apps_zone(10, 460));
    assert!(WatchFace::is_gyro_zone(300));
    assert!(!WatchFace::is_gyro_zone(299));
}

#[test]
fn watchface_brightness_slider() {
    assert_eq!(WatchFace::brightness_from_tap(160, 290), Some(0x10));
    assert_eq!(WatchFace::brightness_from_tap(340, 290), Some(0xFF));
    assert_eq!(WatchFace::brightness_from_tap(150, 290), Some(0x10));
    assert_eq!(WatchFace::brightness_from_tap(250, 290), Some(135));
    assert_eq!(WatchFace::brightness_from_tap(250, 200), None);
}

#[test]
fn watchface_cpu_cycle() {
    let mut f = WatchFace::new();
    f.render();
    assert_eq!(f.cycle_cpu(), 240);
    assert!(f.needs_render());
    assert_eq!(f.cycle_cpu(), 80);
    assert_eq!(f.cycle_cpu(), 160);
    f.cpu_mhz = 123;
    assert_eq!(f.cycle_cpu(), 80);
}

#[test]
fn watchface_aod_shift() {
    let mut f = WatchFace::new();
    f.render();
    f.update_time(10, 40, 0);
    let (cx, cy) = f.render_aod();
    assert_eq!(cx, 184);
    assert_eq!(cy, 192 + 40 % 8 - 4);
    f.update_time(10, 1, 0);
    assert_eq!(f.render_aod(), (184, 189));
    f.update_time(10, 15, 0);
    assert_eq!(f.render_aod(), (184, 195));
    assert!(f.full_redraw && !f.time_changed);
}

#[test]
fn watchface_gauges_and_labels() {
    assert_eq!(battery_fill_width(100), 194);
    assert_eq!(battery_fill_width(250), 194);
    assert_eq!(battery_fill_width(50), 97);
    assert_eq!(battery_fill_color(51), GREEN);
    assert_eq!(battery_fill_color(50), YELLOW);
    assert_eq!(battery_fill_color(20), RED);
    assert_eq!(slider_fill_width(0x10), 0);
    assert_eq!(slider_fill_width(0xFF), 180);
    assert_eq!(slider_fill_width(0), 0);
    assert_eq!(slider_fill_color(200), YELLOW);
    assert_eq!(slider_fill_color(100), rgb565(16, 32, 16));
    assert_eq!(cpu_button_color(80), rgb565(0, 12, 4));
    assert_eq!(cpu_button_color(240), rgb565(15, 6, 0));
    assert_eq!(cpu_button_color(160), rgb565(4, 8, 12));
    assert_eq!(fmt_mhz_short(240), b"240M".to_vec());
    assert_eq!(fmt_mhz_short(80), b"80M".to_vec());
    assert_eq!(fmt_mhz_short(9000), b"?M".to_vec());
    assert_eq!(fmt_date_fr(6, 4, 26), b"06/04/2026".to_vec());
    assert_eq!(fmt_batt(100, true), b"100% CHG".to_vec());
    assert_eq!(fmt_batt(7, false), b"7%".to_vec());
    assert_eq!(fmt_bat_short(42), b"42%".to_vec());
}

#[test]
fn flush_region_union() {
    let a = FlushRegion::new(10, 20, 30, 40);
    let b = FlushRegion::new(5, 50, 10, 20);
    assert_eq!(a.union(b), FlushRegion { x: 5, y: 20, w: 35, h: 50 });
    assert_eq!(FlushRegion::new(-1, 0, 1, 1).x, 0xFFFF);
    assert_eq!(WatchFace::ball_region(GYRO_CX, GYRO_CY), FlushRegion { x: 195, y: 360, w: 20, h: 20 });
    assert_eq!(WatchFace::ball_region(0, 5), FlushRegion { x: 65526, y: 65531, w: 20, h: 20 });
    assert_eq!(WatchFace::time_region(), FlushRegion { x: 37, y: 56, w: 294, h: 72 });
    assert_eq!(WatchFace::battery_region(), FlushRegion { x: 64, y: 171, w: 240, h: 100 });
}

// ---------------------------------------------------------------- launcher

#[test]
fn launcher_menu_items() {
    assert_eq!(MENU_LEN, 8);
    assert_eq!(menu_item(0).state, AppState::Snake);
    assert_eq!(menu_item(0).name, "Snake");
    assert_eq!(menu_item(7).state, AppState::Settings);
    assert_eq!(menu_item(7).name, "设置");
}

#[test]
fn launcher_tap_opens_item() {
    let mut l = Launcher::new();
    assert_eq!(l.update(None, true, 60), Some(AppState::Snake));
    assert_eq!(l.update(None, true, 126), Some(AppState::Game2048));
    // gap between items
    assert_eq!(l.update(None, true, 122), None);
    assert_eq!(l.update(None, true, 20), None);
    assert_eq!(l.update(None, false, 60), None);
}

#[test]
fn launcher_swipes_and_scroll_animation() {
    let mut l = Launcher::new();
    assert_eq!(l.update(Some(SwipeDirection::Right), false, 0), Some(AppState::Watchface));
    l.update(Some(SwipeDirection::Up), false, 0);
    assert_eq!(l.target_scroll, 120);
    assert_eq!(l.scroll_offset, 64);
    l.update(None, false, 0);
    assert_eq!(l.scroll_offset, 64 + 36);
    l.update(Some(SwipeDirection::Up), false, 0);
    assert_eq!(l.target_scroll, 175);
    for _ in 0..20 {
        l.update(None, false, 0);
    }
    assert_eq!(l.scroll_offset, 175);
    // a tap near the bottom now lands on the last item
    assert_eq!(l.update(None, true, 440), Some(AppState::Settings));
    l.update(Some(SwipeDirection::Down), false, 0);
    assert_eq!(l.target_scroll, 55);
}

#[test]
fn launcher_visible_items_and_glyphs() {
    let l = Launcher::new();
    assert_eq!(l.item_top(0), Some(55));
    assert_eq!(l.item_top(5), Some(55 + 5 * 71));
    assert_eq!(l.item_top(6), None);
    assert!(glyph_pixel(&GLYPH_SHE, 0, 3));
    assert!(!glyph_pixel(&GLYPH_SHE, 0, 4));
    assert!(glyph_pixel(&GLYPH_ZHI, 0, 0));
    assert!(!glyph_pixel(&GLYPH_ZHI, 0, 15));
}

// ---------------------------------------------------------------- pages

#[test]
fn pages_cycle() {
    assert_eq!(Page::count(), 4);
    assert_eq!(Page::Clock.next(), Page::Sensors);
    assert_eq!(Page::Power.next(), Page::Clock);
    assert_eq!(Page::Clock.prev(), Page::Power);
    for p in [Page::Clock, Page::Sensors, Page::System, Page::Power] {
        assert_eq!(p.next().prev(), p);
        assert_eq!(p.next().next().next().next(), p);
        assert_eq!(p.color(), BLACK);
    }
    assert_eq!(Page::System.name(), "SYSTEM");
}

#[test]
fn pages_text_lines() {
    assert_eq!(&fmt_axis(b'X', -123), b"X: -1.23");
    assert_eq!(&fmt_axis(b'Y', 5), b"Y: +0.05");
    assert_eq!(fmt_temp(253), b"25.3C".to_vec());
    assert_eq!(fmt_temp(-75), b"-07.5C".to_vec());
    assert_eq!(fmt_temp(9000), b"??C".to_vec());
    assert_eq!(fmt_mv(4012), b"4012mV".to_vec());
    assert_eq!(fmt_mv(850), b"850mV".to_vec());
}

// ---------------------------------------------------------------- segments

#[test]
fn seven_segment_digit_one() {
    let r = digit_rects(0, 0, 1, 36, 64, 6, 1, 0);
    assert_eq!(r.len(), 7);
    let lit: Vec<u16> = r.iter().map(|s| s.color).collect();
    assert_eq!(lit, vec![0, 1, 1, 0, 0, 0, 0]);
    assert_eq!(r[0], FillRect { x: 6, y: 0, w: 24, h: 6, color: 0 });
    assert_eq!(r[6], FillRect { x: 6, y: 29, w: 24, h: 6, color: 0 });
    assert!(digit_rects(0, 0, 10, 36, 64, 6, 1, 0).is_empty());
}

#[test]
fn seven_segment_clock_layout() {
    let c = colon_rects(10, 0, 64, 6, 1);
    assert_eq!(c, vec![FillRect { x: 10, y: 16, w: 6, h: 6, color: 1 }, FillRect { x: 10, y: 42, w: 6, h: 6, color: 1 }]);
    let t = time_rects(184, 60, 12, 34, 56, 1, 0);
    assert_eq!(t.len(), 6 * 7 + 2 * 2);
    assert_eq!(t[0].y, 60);
    assert_eq!(t[4].x, 184 - 143); // bottom-left segment of the first digit
    let h = hhmm_rects(184, 100, 99, 100, 1, 0);
    // minutes tens digit 10 draws nothing
    assert_eq!(h.len(), 7 + 7 + 2 + 7);
}

// ---------------------------------------------------------------- keyboard

#[test]
fn t9_cursor_and_key_highlight() {
    let mut k = T9Keyboard::new();
    k.show();
    assert_eq!(k.cursor_x(), 20);
    assert_eq!(k.key_background(1), (3 << 11) | (6 << 5) | 3);
    assert!(k.handle_tap(200, 280));
    assert_eq!(k.cursor_x(), 30);
    assert_eq!(k.key_background(1), (4 << 11) | (10 << 5) | 4);
    assert_eq!(k.key_background(0), (3 << 11) | (6 << 5) | 3);
}

#[test]
fn t9_multi_tap_and_commit() {
    let mut k = T9Keyboard::new();
    assert!(!k.handle_tap(200, 280));
    k.show();
    assert!(k.is_active());
    assert!(k.handle_tap(200, 280));
    assert_eq!(k.get_text(), "a");
    assert!(k.handle_tap(200, 280));
    assert_eq!(k.get_text(), "b");
    assert!(!k.update(500));
    assert!(k.update(300));
    assert!(k.handle_tap(200, 280));
    assert_eq!(k.get_text(), "ba");
    // delete key (bottom right)
    assert!(k.handle_tap(300, 450));
    assert_eq!(k.get_text(), "b");
    k.clear_text();
    assert_eq!(k.get_text(), "");
    k.dismiss();
    assert!(!k.is_active());
}

#[test]
fn t9_shift_modes() {
    let mut k = T9Keyboard::new();
    k.show();
    assert_eq!(k.mode_label(), "abc");
    assert!(k.handle_tap(50, 450));
    assert_eq!(k.mode_label(), "ABC");
    assert!(k.handle_tap(200, 280));
    assert_eq!(k.get_text(), "A");
    assert!(k.handle_tap(50, 450));
    assert_eq!(k.mode_label(), "123");
    assert!(k.handle_tap(200, 280));
    assert!(k.handle_tap(200, 280));
    assert_eq!(k.get_text(), "A22");
    assert_eq!(T9Keyboard::key_index(21, 250), Some(0));
    // just left of the keyboard still rounds into the first column
    assert_eq!(T9Keyboard::key_index(10, 250), Some(0));
    assert_eq!(T9Keyboard::key_index(10, 150), None);
}
