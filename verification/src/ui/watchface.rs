//! The main watch face: clock, date, battery gauge, radio toggles, CPU
//! button, brightness slider and the tilt ball, with the dirty-flag
//! bookkeeping that decides what is redrawn and which regions are flushed.
//! The caller draws what a render plan asks for.

use vstd::prelude::*;
use crate::text::{digit_char, utf8_or, push_all};
use crate::ui::color::{rgb565, spec_rgb565, GREEN, YELLOW, RED};
use crate::ui::t9_keyboard::trunc_div;

verus! {

/// Horizontal centre of the panel.
pub const SCREEN_CX: i32 = 184;
pub const TIME_Y: i32 = 60;
/// Top of the always-on clock before its anti burn-in shift: half the
/// panel height less 32.
pub const AOD_CLOCK_Y: i32 = 192;
pub const TIME_DW: i32 = 36;
pub const TIME_DH: i32 = 64;
pub const TIME_GAP: i32 = 6;
pub const TIME_CW: i32 = 14;
pub const TIME_TOTAL_W: i32 = 6 * TIME_DW + 2 * TIME_CW + 7 * TIME_GAP;
pub const TIME_PAD: i32 = 4;
pub const BATTERY_Y: i32 = 175;
pub const BATTERY_PAD_Y: i32 = 4;
pub const BATTERY_REGION_W: i32 = 240;
pub const BATTERY_REGION_H: i32 = 92;
pub const GYRO_CX: i32 = 205;
pub const GYRO_CY: i32 = 370;
pub const GYRO_R: i32 = 50;
pub const BALL_R: i32 = 8;
pub const GYRO_FLUSH_PAD: i32 = 2;
/// Furthest the ball centre moves from the dial centre.
pub const BALL_MAX_OFF: i32 = GYRO_R - BALL_R - 4;

pub const BLE_TOGGLE_X: i32 = 50;
pub const BLE_TOGGLE_Y: i32 = 245;
pub const BLE_TOGGLE_W: i32 = 56;
pub const BLE_TOGGLE_H: i32 = 28;

pub const WIFI_TOGGLE_X: i32 = 50;
pub const WIFI_TOGGLE_Y: i32 = 290;
pub const WIFI_TOGGLE_W: i32 = 56;
pub const WIFI_TOGGLE_H: i32 = 28;
pub const WIFI_KNOB_R: i32 = 10;

pub const BRI_SLIDER_X: i32 = 160;
pub const BRI_SLIDER_Y: i32 = 278;
pub const BRI_SLIDER_W: i32 = 180;
pub const BRI_SLIDER_H: i32 = 22;

pub const CPU_BTN_X: i32 = 42;
pub const CPU_BTN_Y: i32 = 327;
pub const CPU_BTN_W: i32 = 72;
pub const CPU_BTN_H: i32 = 28;

pub const APPS_BTN_X: i32 = 130;
pub const APPS_BTN_Y: i32 = 450;
pub const APPS_BTN_W: i32 = 140;
pub const APPS_BTN_H: i32 = 32;

/// A screen rectangle to push to the panel.
#[derive(Clone, Copy, Debug, PartialEq, Eq, Structural)]
pub struct FlushRegion {
    pub x: u16,
    pub y: u16,
    pub w: u16,
    pub h: u16,
}

/// The region with each coordinate cut to 16 bits.
pub open spec fn region(x: int, y: int, w: int, h: int) -> FlushRegion {
    FlushRegion { x: x as u16, y: y as u16, w: w as u16, h: h as u16 }
}

pub open spec fn min_int(a: int, b: int) -> int {
    if a <= b { a } else { b }
}

pub open spec fn max_int(a: int, b: int) -> int {
    if a >= b { a } else { b }
}

/// The smallest rectangle holding both.
pub open spec fn spec_union(a: FlushRegion, b: FlushRegion) -> FlushRegion {
    let x1 = min_int(a.x as int, b.x as int);
    let y1 = min_int(a.y as int, b.y as int);
    let x2 = max_int(a.x + a.w, b.x + b.w);
    let y2 = max_int(a.y + a.h, b.y + b.h);
    region(x1, y1, x2 - x1, y2 - y1)
}

impl FlushRegion {
    /// Builds a region from signed coordinates, each cut to 16 bits.
    pub fn new(x: i32, y: i32, w: i32, h: i32) -> (r: Self)
        ensures
            r == region(x as int, y as int, w as int, h as int),
    {
        FlushRegion { x: x as u16, y: y as u16, w: w as u16, h: h as u16 }
    }

    /// The bounding box of both regions.
    pub fn union(self, other: Self) -> (r: Self)
        ensures
            r == spec_union(self, other),
    {
        let x1: i32 = if self.x <= other.x { self.x as i32 } else { other.x as i32 };
        let y1: i32 = if self.y <= other.y { self.y as i32 } else { other.y as i32 };
        let ea: i32 = self.x as i32 + self.w as i32;
        let eb: i32 = other.x as i32 + other.w as i32;
        let x2: i32 = if ea >= eb { ea } else { eb };
        let fa: i32 = self.y as i32 + self.h as i32;
        let fb: i32 = other.y as i32 + other.h as i32;
        let y2: i32 = if fa >= fb { fa } else { fb };
        Self::new(x1, y1, x2 - x1, y2 - y1)
    }
}

/// What one render pass drew: everything, or the regions to flush.
#[derive(Clone, Copy, Debug, PartialEq, Eq, Structural)]
pub struct RenderOutcome {
    pub full_redraw: bool,
    pub time_region: Option<FlushRegion>,
    pub battery_region: Option<FlushRegion>,
    pub gyro_region: Option<FlushRegion>,
}

pub open spec fn no_outcome() -> RenderOutcome {
    RenderOutcome { full_redraw: false, time_region: None, battery_region: None, gyro_region: None }
}

impl Default for RenderOutcome {
    /// Nothing drawn.
    fn default() -> (r: Self)
        ensures
            r == no_outcome(),
    {
        RenderOutcome { full_redraw: false, time_region: None, battery_region: None, gyro_region: None }
    }
}

/// The tilt ball moved: erase it at the old centre, draw it at the new one.
#[derive(Clone, Copy, Debug, PartialEq, Eq, Structural)]
pub struct BallMove {
    pub old_x: i32,
    pub old_y: i32,
    pub new_x: i32,
    pub new_y: i32,
}

/// What the caller has to draw for one render pass, and what it flushes.
#[derive(Clone, Copy, Debug, PartialEq, Eq, Structural)]
pub struct RenderPlan {
    pub outcome: RenderOutcome,
    pub ball: Option<BallMove>,
}

/// The flush area of a ball centred at (x, y).
pub open spec fn spec_ball_region(x: int, y: int) -> FlushRegion {
    region(x - BALL_R - GYRO_FLUSH_PAD, y - BALL_R - GYRO_FLUSH_PAD,
        BALL_R * 2 + GYRO_FLUSH_PAD * 2, BALL_R * 2 + GYRO_FLUSH_PAD * 2)
}

/// Where a ball move has to be flushed: both positions.
pub open spec fn move_region(m: BallMove) -> FlushRegion {
    spec_union(spec_ball_region(m.old_x as int, m.old_y as int), spec_ball_region(m.new_x as int, m.new_y as int))
}

pub open spec fn clamp(v: int, lo: int, hi: int) -> int {
    if v < lo { lo } else if v > hi { hi } else { v }
}

/// Ball centre for an acceleration in hundredths of g: tilting along y moves
/// the ball left/right, along x up/down, by up to `BALL_MAX_OFF` pixels.
pub open spec fn ball_position(accel_x: i16, accel_y: i16) -> (int, int) {
    let bx = clamp(trunc_div(-accel_y * BALL_MAX_OFF, 100), -BALL_MAX_OFF as int, BALL_MAX_OFF as int);
    let by = clamp(trunc_div(accel_x * BALL_MAX_OFF, 100), -BALL_MAX_OFF as int, BALL_MAX_OFF as int);
    (GYRO_CX + bx, GYRO_CY + by)
}

/// The ball has moved far enough (2 pixels in either axis) to be redrawn.
pub open spec fn ball_moved(nx: int, ny: int, px: int, py: int) -> bool {
    nx - px >= 2 || px - nx >= 2 || ny - py >= 2 || py - ny >= 2
}

/// A point within the dial, where the ball can be.
pub open spec fn on_dial(x: int, y: int) -> bool {
    GYRO_CX - BALL_MAX_OFF <= x <= GYRO_CX + BALL_MAX_OFF
        && GYRO_CY - BALL_MAX_OFF <= y <= GYRO_CY + BALL_MAX_OFF
}

/// Inside the box from (x0, y0) to (x1, y1), borders included.
pub open spec fn in_box(x: int, y: int, x0: int, y0: int, x1: int, y1: int) -> bool {
    x0 <= x <= x1 && y0 <= y <= y1
}

/// Brightness picked by a tap at (x, y) on the slider: `0x10..=0xFF` across
/// its width (never fully off); `None` off the slider.
pub open spec fn spec_brightness_from_tap(x: u16, y: u16) -> Option<u8> {
    if in_box(x as int, y as int, BRI_SLIDER_X - 10, BRI_SLIDER_Y - 12,
        BRI_SLIDER_X + BRI_SLIDER_W + 10, BRI_SLIDER_Y + BRI_SLIDER_H + 12) {
        let c = clamp(x - BRI_SLIDER_X, 0, BRI_SLIDER_W as int);
        Some((0x10 + c * (0xFF - 0x10) / BRI_SLIDER_W as int) as u8)
    } else {
        None
    }
}

/// Next CPU frequency: 80 → 160 → 240 → 80 (anything else → 80).
pub open spec fn next_cpu_mhz(mhz: u16) -> u16 {
    if mhz == 80 {
        160
    } else if mhz == 160 {
        240
    } else {
        80
    }
}

/// The watch face's state: what is shown, and what changed since the last
/// render pass.
pub struct WatchFace {
    pub hours: u8,
    pub minutes: u8,
    pub seconds: u8,
    pub battery_percent: u8,
    pub battery_voltage: u16,
    pub is_charging: bool,
    /// Acceleration in hundredths of g.
    pub accel_x: i16,
    pub accel_y: i16,
    pub accel_z: i16,
    /// Where the ball was last drawn.
    pub prev_ball_x: i32,
    pub prev_ball_y: i32,
    pub day: u8,
    pub month: u8,
    /// Year within the century.
    pub year: u8,
    pub full_redraw: bool,
    pub time_changed: bool,
    pub battery_changed: bool,
    pub gyro_changed: bool,
    pub wifi_connected: bool,
    pub ble_on: bool,
    pub gyro_enabled: bool,
    /// Panel brightness, 0..=255.
    pub brightness: u8,
    /// CPU frequency in MHz, applied at the next boot.
    pub cpu_mhz: u16,
}

/// The region of the clock digits.
pub open spec fn spec_time_region() -> FlushRegion {
    region(SCREEN_CX - TIME_TOTAL_W / 2 - TIME_PAD, TIME_Y - TIME_PAD, TIME_TOTAL_W + TIME_PAD * 2,
        TIME_DH + TIME_PAD * 2)
}

/// The region of the battery gauge and its label.
pub open spec fn spec_battery_region() -> FlushRegion {
    region(SCREEN_CX - BATTERY_REGION_W / 2, BATTERY_Y - BATTERY_PAD_Y, BATTERY_REGION_W as int,
        BATTERY_REGION_H + BATTERY_PAD_Y * 2)
}

/// The ball's redraw, if it moved far enough from where it was drawn.
pub open spec fn spec_ball_step(f: WatchFace) -> Option<BallMove> {
    let (nx, ny) = ball_position(f.accel_x, f.accel_y);
    if ball_moved(nx, ny, f.prev_ball_x as int, f.prev_ball_y as int) {
        Some(BallMove { old_x: f.prev_ball_x, old_y: f.prev_ball_y, new_x: nx as i32, new_y: ny as i32 })
    } else {
        None
    }
}

/// The face after the ball was (or was not) redrawn.
pub open spec fn moved_to(f: WatchFace, ball: Option<BallMove>) -> WatchFace {
    match ball {
        Some(m) => WatchFace { prev_ball_x: m.new_x, prev_ball_y: m.new_y, ..f },
        None => f,
    }
}

/// Something has to be drawn.
pub open spec fn spec_needs_render(f: WatchFace) -> bool {
    f.full_redraw || f.time_changed || f.battery_changed || f.gyro_changed
}

/// One render pass: nothing when nothing changed; everything (and the ball,
/// when the dial is on) after a full-redraw request; otherwise the clock,
/// the gauge and the ball as far as each changed. The ball is only redrawn
/// while the dial is on; a ball change with the dial off stays pending.
pub open spec fn spec_render(f: WatchFace) -> (WatchFace, RenderPlan) {
    if !spec_needs_render(f) {
        (f, RenderPlan { outcome: no_outcome(), ball: None })
    } else if f.full_redraw {
        let ball = if f.gyro_enabled { spec_ball_step(f) } else { None };
        let g = moved_to(f, ball);
        (
            WatchFace { full_redraw: false, time_changed: false, battery_changed: false, gyro_changed: false, ..g },
            RenderPlan { outcome: RenderOutcome { full_redraw: true, ..no_outcome() }, ball },
        )
    } else {
        let ball = if f.gyro_changed && f.gyro_enabled { spec_ball_step(f) } else { None };
        let g = moved_to(f, ball);
        (
            WatchFace {
                time_changed: false,
                battery_changed: false,
                gyro_changed: f.gyro_changed && !f.gyro_enabled,
                ..g
            },
            RenderPlan {
                outcome: RenderOutcome {
                    full_redraw: false,
                    time_region: if f.time_changed { Some(spec_time_region()) } else { None },
                    battery_region: if f.battery_changed { Some(spec_battery_region()) } else { None },
                    gyro_region: match ball {
                        Some(m) => Some(move_region(m)),
                        None => None,
                    },
                },
                ball,
            },
        )
    }
}

impl WatchFace {
    /// The ball was last drawn on the dial.
    pub open spec fn wf(&self) -> bool {
        on_dial(self.prev_ball_x as int, self.prev_ball_y as int)
    }

    /// Midnight, 06/04/2026, dial off, brightness 0xA0, 160 MHz, full redraw pending.
    pub fn new() -> (f: Self)
        ensures
            f.wf(),
            f.hours == 0 && f.minutes == 0 && f.seconds == 0,
            f.battery_percent == 0 && f.battery_voltage == 0 && !f.is_charging,
            f.accel_x == 0 && f.accel_y == 0 && f.accel_z == 0,
            f.prev_ball_x == GYRO_CX && f.prev_ball_y == GYRO_CY,
            f.day == 6 && f.month == 4 && f.year == 26,
            f.full_redraw && !f.time_changed && !f.battery_changed && !f.gyro_changed,
            !f.wifi_connected && !f.ble_on && !f.gyro_enabled,
            f.brightness == 0xA0,
            f.cpu_mhz == 160,
    {
        WatchFace {
            hours: 0,
            minutes: 0,
            seconds: 0,
            battery_percent: 0,
            battery_voltage: 0,
            is_charging: false,
            accel_x: 0,
            accel_y: 0,
            accel_z: 0,
            prev_ball_x: GYRO_CX,
            prev_ball_y: GYRO_CY,
            day: 6,
            month: 4,
            year: 26,
            full_redraw: true,
            time_changed: false,
            battery_changed: false,
            gyro_changed: false,
            wifi_connected: false,
            ble_on: false,
            gyro_enabled: false,
            brightness: 0xA0,
            cpu_mhz: 160,
        }
    }

    /// Sets the time; marks the clock for redraw when it differs.
    pub fn update_time(&mut self, h: u8, m: u8, s: u8)
        ensures
            *final(self) == if old(self).hours != h || old(self).minutes != m || old(self).seconds != s {
                WatchFace { hours: h, minutes: m, seconds: s, time_changed: true, ..*old(self) }
            } else {
                *old(self)
            },
    {
        if self.hours != h || self.minutes != m || self.seconds != s {
            self.hours = h;
            self.minutes = m;
            self.seconds = s;
            self.time_changed = true;
        }
    }

    /// Sets the date (shown at the next full redraw).
    pub fn update_date(&mut self, day: u8, month: u8, year: u8)
        ensures
            *final(self) == (WatchFace { day, month, year, ..*old(self) }),
    {
        self.day = day;
        self.month = month;
        self.year = year;
    }

    /// Sets the battery state; marks the gauge for redraw when it differs.
    pub fn update_battery(&mut self, pct: u8, mv: u16, chg: bool)
        ensures
            *final(self) == if old(self).battery_percent != pct || old(self).battery_voltage != mv
                || old(self).is_charging != chg {
                WatchFace { battery_percent: pct, battery_voltage: mv, is_charging: chg, battery_changed: true, ..*old(self) }
            } else {
                *old(self)
            },
    {
        if self.battery_percent != pct || self.battery_voltage != mv || self.is_charging != chg {
            self.battery_percent = pct;
            self.battery_voltage = mv;
            self.is_charging = chg;
            self.battery_changed = true;
        }
    }

    /// Sets the acceleration (hundredths of g); marks the ball for redraw
    /// when its position moves 2 pixels or more from where it was drawn.
    pub fn update_accel(&mut self, x: i16, y: i16, z: i16)
        requires
            old(self).wf(),
        ensures
            final(self).wf(),
            *final(self) == (WatchFace {
                accel_x: x,
                accel_y: y,
                accel_z: z,
                gyro_changed: old(self).gyro_changed || {
                    let (nx, ny) = ball_position(x, y);
                    ball_moved(nx, ny, old(self).prev_ball_x as int, old(self).prev_ball_y as int)
                },
                ..*old(self)
            }),
    {
        self.accel_x = x;
        self.accel_y = y;
        self.accel_z = z;
        let (nx, ny) = Self::projected_ball_position(x, y);
        let dx = nx - self.prev_ball_x;
        let dy = ny - self.prev_ball_y;
        if dx >= 2 || dx <= -2 || dy >= 2 || dy <= -2 {
            self.gyro_changed = true;
        }
    }

    /// Asks for a full redraw.
    pub fn force_redraw(&mut self)
        ensures
            *final(self) == (WatchFace { full_redraw: true, ..*old(self) }),
    {
        self.full_redraw = true;
    }

    /// Turns the tilt dial on or off; returns the new state.
    pub fn toggle_gyro(&mut self) -> (on: bool)
        ensures
            on == !old(self).gyro_enabled,
            *final(self) == (WatchFace { gyro_enabled: on, full_redraw: true, ..*old(self) }),
    {
        self.gyro_enabled = !self.gyro_enabled;
        self.full_redraw = true;
        self.gyro_enabled
    }

    /// A tap at height `y` is on the tilt dial band.
    pub fn is_gyro_zone(y: u16) -> (r: bool)
        ensures
            r == (GYRO_CY - GYRO_R - 20 <= y <= GYRO_CY + GYRO_R + 20),
    {
        y as i32 >= GYRO_CY - GYRO_R - 20 && (y as i32) <= GYRO_CY + GYRO_R + 20
    }

    /// A tap on the WiFi switch (10 pixels of slack around it).
    pub fn is_wifi_zone(x: u16, y: u16) -> (r: bool)
        ensures
            r == in_box(x as int, y as int, WIFI_TOGGLE_X - 10, WIFI_TOGGLE_Y - 10,
                WIFI_TOGGLE_X + WIFI_TOGGLE_W + 10, WIFI_TOGGLE_Y + WIFI_TOGGLE_H + 10),
    {
        let xi = x as i32;
        let yi = y as i32;
        xi >= WIFI_TOGGLE_X - 10 && xi <= WIFI_TOGGLE_X + WIFI_TOGGLE_W + 10 && yi >= WIFI_TOGGLE_Y - 10
            && yi <= WIFI_TOGGLE_Y + WIFI_TOGGLE_H + 10
    }

    /// The brightness a tap on the slider selects, if the tap is on it.
    pub fn brightness_from_tap(x: u16, y: u16) -> (r: Option<u8>)
        ensures
            r == spec_brightness_from_tap(x, y),
    {
        let xi = x as i32;
        let yi = y as i32;
        if yi >= BRI_SLIDER_Y - 12 && yi <= BRI_SLIDER_Y + BRI_SLIDER_H + 12 && xi >= BRI_SLIDER_X - 10
            && xi <= BRI_SLIDER_X + BRI_SLIDER_W + 10 {
            let d = xi - BRI_SLIDER_X;
            let clamped: u32 = if d < 0 {
                0
            } else if d > BRI_SLIDER_W {
                BRI_SLIDER_W as u32
            } else {
                d as u32
            };
            assert(clamped * 239 <= 180 * 239) by (nonlinear_arith)
                requires
                    clamped <= 180,
            ;
            let val: u32 = 0x10 + (clamped * (0xFF - 0x10) / BRI_SLIDER_W as u32);
            Some(val as u8)
        } else {
            None
        }
    }

    /// A tap on the BLE switch.
    pub fn is_ble_zone(x: u16, y: u16) -> (r: bool)
        ensures
            r == in_box(x as int, y as int, BLE_TOGGLE_X - 10, BLE_TOGGLE_Y - 10,
                BLE_TOGGLE_X + BLE_TOGGLE_W + 10, BLE_TOGGLE_Y + BLE_TOGGLE_H + 10),
    {
        let xi = x as i32;
        let yi = y as i32;
        xi >= BLE_TOGGLE_X - 10 && xi <= BLE_TOGGLE_X + BLE_TOGGLE_W + 10 && yi >= BLE_TOGGLE_Y - 10
            && yi <= BLE_TOGGLE_Y + BLE_TOGGLE_H + 10
    }

    /// A tap on the CPU button (8 pixels of slack).
    pub fn is_cpu_zone(x: u16, y: u16) -> (r: bool)
        ensures
            r == in_box(x as int, y as int, CPU_BTN_X - 8, CPU_BTN_Y - 8, CPU_BTN_X + CPU_BTN_W + 8,
                CPU_BTN_Y + CPU_BTN_H + 8),
    {
        let xi = x as i32;
        let yi = y as i32;
        xi >= CPU_BTN_X - 8 && xi <= CPU_BTN_X + CPU_BTN_W + 8 && yi >= CPU_BTN_Y - 8 && yi <= CPU_BTN_Y
            + CPU_BTN_H + 8
    }

    /// A tap on the Apps button (8 pixels of slack).
    pub fn is_apps_zone(x: u16, y: u16) -> (r: bool)
        ensures
            r == in_box(x as int, y as int, APPS_BTN_X - 8, APPS_BTN_Y - 8, APPS_BTN_X + APPS_BTN_W + 8,
                APPS_BTN_Y + APPS_BTN_H + 8),
    {
        let xi = x as i32;
        let yi = y as i32;
        xi >= APPS_BTN_X - 8 && xi <= APPS_BTN_X + APPS_BTN_W + 8 && yi >= APPS_BTN_Y - 8 && yi
            <= APPS_BTN_Y + APPS_BTN_H + 8
    }

    /// Steps the CPU frequency 80 → 160 → 240 → 80; returns the new value.
    pub fn cycle_cpu(&mut self) -> (mhz: u16)
        ensures
            mhz == next_cpu_mhz(old(self).cpu_mhz),
            *final(self) == (WatchFace { cpu_mhz: mhz, full_redraw: true, ..*old(self) }),
    {
        self.cpu_mhz = match self.cpu_mhz {
            80 => 160,
            160 => 240,
            _ => 80,
        };
        self.full_redraw = true;
        self.cpu_mhz
    }

    /// Something changed since the last render pass.
    pub fn needs_render(&self) -> (r: bool)
        ensures
            r == spec_needs_render(*self),
    {
        self.full_redraw || self.time_changed || self.battery_changed || self.gyro_changed
    }

    /// The clock digits' region.
    pub fn time_region() -> (r: FlushRegion)
        ensures
            r == spec_time_region(),
    {
        FlushRegion::new(SCREEN_CX - TIME_TOTAL_W / 2 - TIME_PAD, TIME_Y - TIME_PAD, TIME_TOTAL_W + TIME_PAD * 2,
            TIME_DH + TIME_PAD * 2)
    }

    /// The battery gauge's region.
    pub fn battery_region() -> (r: FlushRegion)
        ensures
            r == spec_battery_region(),
    {
        FlushRegion::new(SCREEN_CX - BATTERY_REGION_W / 2, BATTERY_Y - BATTERY_PAD_Y, BATTERY_REGION_W,
            BATTERY_REGION_H + BATTERY_PAD_Y * 2)
    }

    /// The flush area of a ball centred at (x, y).
    pub fn ball_region(x: i32, y: i32) -> (r: FlushRegion)
        requires
            x - BALL_R - GYRO_FLUSH_PAD >= i32::MIN,
            y - BALL_R - GYRO_FLUSH_PAD >= i32::MIN,
        ensures
            r == spec_ball_region(x as int, y as int),
    {
        FlushRegion::new(x - BALL_R - GYRO_FLUSH_PAD, y - BALL_R - GYRO_FLUSH_PAD, BALL_R * 2 + GYRO_FLUSH_PAD * 2,
            BALL_R * 2 + GYRO_FLUSH_PAD * 2)
    }

    fn div100_toward_zero(a: i32) -> (r: i32)
        requires
            -10000000 <= a <= 10000000,
        ensures
            r == trunc_div(a as int, 100),
    {
        if a >= 0 {
            a / 100
        } else {
            -((-a) / 100)
        }
    }

    fn clamp_off(v: i32) -> (r: i32)
        ensures
            r == clamp(v as int, -BALL_MAX_OFF as int, BALL_MAX_OFF as int),
    {
        if v < -BALL_MAX_OFF {
            -BALL_MAX_OFF
        } else if v > BALL_MAX_OFF {
            BALL_MAX_OFF
        } else {
            v
        }
    }

    /// Ball centre for an acceleration in hundredths of g.
    pub fn projected_ball_position(accel_x: i16, accel_y: i16) -> (r: (i32, i32))
        ensures
            (r.0 as int, r.1 as int) == ball_position(accel_x, accel_y),
            on_dial(r.0 as int, r.1 as int),
    {
        assert(BALL_MAX_OFF == 38);
        let ny: i32 = -(accel_y as i32);
        let px: i32 = accel_x as i32;
        assert(-1300000 <= ny * 38 <= 1300000) by (nonlinear_arith)
            requires
                -32768 <= ny <= 32768,
        ;
        assert(-1300000 <= px * 38 <= 1300000) by (nonlinear_arith)
            requires
                -32768 <= px <= 32768,
        ;
        let bx = Self::clamp_off(Self::div100_toward_zero(ny * BALL_MAX_OFF));
        let by = Self::clamp_off(Self::div100_toward_zero(px * BALL_MAX_OFF));
        (GYRO_CX + bx, GYRO_CY + by)
    }

    /// Redraws the ball if it moved: returns the move and records the new position.
    fn step_ball(&mut self) -> (m: Option<BallMove>)
        requires
            old(self).wf(),
        ensures
            final(self).wf(),
            m == spec_ball_step(*old(self)),
            *final(self) == moved_to(*old(self), m),
    {
        let (nx, ny) = Self::projected_ball_position(self.accel_x, self.accel_y);
        let dx = nx - self.prev_ball_x;
        let dy = ny - self.prev_ball_y;
        if dx < 2 && dx > -2 && dy < 2 && dy > -2 {
            return None;
        }
        let m = BallMove { old_x: self.prev_ball_x, old_y: self.prev_ball_y, new_x: nx, new_y: ny };
        self.prev_ball_x = nx;
        self.prev_ball_y = ny;
        Some(m)
    }

    /// The area a ball move dirties.
    pub fn ball_move_region(m: BallMove) -> (r: FlushRegion)
        requires
            on_dial(m.old_x as int, m.old_y as int),
            on_dial(m.new_x as int, m.new_y as int),
        ensures
            r == move_region(m),
    {
        Self::ball_region(m.old_x, m.old_y).union(Self::ball_region(m.new_x, m.new_y))
    }

    /// One render pass: clears the dirty flags and says what to draw and flush.
    pub fn render(&mut self) -> (plan: RenderPlan)
        requires
            old(self).wf(),
        ensures
            final(self).wf(),
            (*final(self), plan) == spec_render(*old(self)),
    {
        if !self.full_redraw && !self.time_changed && !self.battery_changed && !self.gyro_changed {
            return RenderPlan { outcome: RenderOutcome::default(), ball: None };
        }
        if self.full_redraw {
            let ball = if self.gyro_enabled {
                self.step_ball()
            } else {
                None
            };
            self.full_redraw = false;
            self.time_changed = false;
            self.battery_changed = false;
            self.gyro_changed = false;
            let outcome = RenderOutcome { full_redraw: true, ..RenderOutcome::default() };
            return RenderPlan { outcome, ball };
        }
        let mut outcome = RenderOutcome::default();
        if self.time_changed {
            self.time_changed = false;
            outcome.time_region = Some(Self::time_region());
        }
        if self.battery_changed {
            self.battery_changed = false;
            outcome.battery_region = Some(Self::battery_region());
        }
        let mut ball: Option<BallMove> = None;
        if self.gyro_changed && self.gyro_enabled {
            ball = self.step_ball();
            outcome.gyro_region = match ball {
                Some(m) => Some(Self::ball_move_region(m)),
                None => None,
            };
            self.gyro_changed = false;
        }
        RenderPlan { outcome, ball }
    }

    /// Always-on display pass: returns the centre of the dimmed clock, moved
    /// vertically by `(minutes % 8) - 4` pixels against burn-in, and asks for a
    /// full redraw on wake.
    pub fn render_aod(&mut self) -> (c: (i32, i32))
        ensures
            c.0 == SCREEN_CX,
            c.1 == AOD_CLOCK_Y + aod_shift_y(old(self).minutes),
            *final(self) == (WatchFace {
                full_redraw: true,
                time_changed: false,
                battery_changed: false,
                gyro_changed: false,
                ..*old(self)
            }),
    {
        let shift_y = (self.minutes % 8) as i32 - 4;
        self.full_redraw = true;
        self.time_changed = false;
        self.battery_changed = false;
        self.gyro_changed = false;
        (SCREEN_CX, AOD_CLOCK_Y + shift_y)
    }
}

/// Width of the gauge fill: the percentage (at most 100) of the 194-pixel inner bar.
pub open spec fn spec_battery_fill_width(pct: u8) -> int {
    min_int(pct as int, 100) * 194 / 100
}

/// Gauge colour: green above 50 %, yellow above 20 %, red below.
pub open spec fn spec_battery_fill_color(pct: u8) -> u16 {
    if pct > 50 {
        GREEN
    } else if pct > 20 {
        YELLOW
    } else {
        RED
    }
}

/// Width of the slider fill for a brightness: `0x10..=0xFF` spread over the slider.
pub open spec fn spec_slider_fill_width(brightness: u8) -> int {
    max_int(brightness - 0x10, 0) * BRI_SLIDER_W / (0xFF - 0x10)
}

/// CPU button colour: greenish at 80 MHz, orange at 240, blue otherwise.
pub open spec fn spec_cpu_button_color(mhz: u16) -> u16 {
    if mhz == 80 {
        spec_rgb565(0, 12, 4)
    } else if mhz == 240 {
        spec_rgb565(15, 6, 0)
    } else {
        spec_rgb565(4, 8, 12)
    }
}

/// Width of the battery gauge fill.
pub fn battery_fill_width(pct: u8) -> (w: i32)
    ensures
        w == spec_battery_fill_width(pct),
{
    let p: i32 = if pct <= 100 { pct as i32 } else { 100 };
    assert(p * 194 <= 19400) by (nonlinear_arith)
        requires
            0 <= p <= 100,
    ;
    p * 194 / 100
}

/// Colour of the battery gauge fill.
pub fn battery_fill_color(pct: u8) -> (c: u16)
    ensures
        c == spec_battery_fill_color(pct),
{
    if pct > 50 {
        GREEN
    } else if pct > 20 {
        YELLOW
    } else {
        RED
    }
}

/// Width of the brightness slider fill.
pub fn slider_fill_width(brightness: u8) -> (w: u32)
    ensures
        w == spec_slider_fill_width(brightness),
{
    let d: i32 = if brightness >= 0x10 { brightness as i32 - 0x10 } else { 0 };
    assert(d * 180 <= 239 * 180) by (nonlinear_arith)
        requires
            0 <= d <= 239,
    ;
    (d * BRI_SLIDER_W / (0xFF - 0x10)) as u32
}

/// Colour of the brightness slider fill: yellow above 180, soft green below.
pub fn slider_fill_color(brightness: u8) -> (c: u16)
    ensures
        c == if brightness > 180 { YELLOW } else { spec_rgb565(16, 32, 16) },
{
    if brightness > 180 {
        YELLOW
    } else {
        rgb565(16, 32, 16)
    }
}

/// Colour of the CPU button.
pub fn cpu_button_color(mhz: u16) -> (c: u16)
    ensures
        c == spec_cpu_button_color(mhz),
{
    match mhz {
        80 => rgb565(0, 12, 4),
        240 => rgb565(15, 6, 0),
        _ => rgb565(4, 8, 12),
    }
}

/// `NNNM`: the frequency's hundreds (as the byte `'0' + (mhz / 100) mod 256`,
/// from 100 on), tens and units, then `M`.
pub open spec fn mhz_bytes(mhz: u16) -> Seq<u8> {
    (if mhz >= 100 { seq![(48 + (mhz / 100) % 256) as u8] } else { seq![] }) + seq![
        digit_char(((mhz / 10) % 10) as nat),
        digit_char((mhz % 10) as nat),
        77u8,
    ]
}

/// The hundreds byte stays within a byte.
pub open spec fn mhz_fits(mhz: u16) -> bool {
    mhz < 100 || (mhz / 100) % 256 <= 207
}

/// The CPU button label, or `?M` when the bytes are not UTF-8.
pub fn fmt_mhz_short(mhz: u16) -> (r: Vec<u8>)
    requires
        mhz_fits(mhz),
    ensures
        r@ == if vstd::utf8::valid_utf8(mhz_bytes(mhz)) { mhz_bytes(mhz) } else { seq![63u8, 77] },
{
    let mut raw: Vec<u8> = Vec::new();
    if mhz >= 100 {
        let h: u8 = ((mhz / 100) % 256) as u8;
        raw.push(48 + h);
    }
    raw.push(48 + ((mhz / 10) % 10) as u8);
    raw.push(48 + (mhz % 10) as u8);
    raw.push(77u8);
    assert(raw@ =~= mhz_bytes(mhz));
    let fallback: [u8; 2] = [63u8, 77];
    assert(fallback@ =~= seq![63u8, 77]);
    utf8_or(raw, fallback.as_slice())
}

/// `DD/MM/20YY`, each two-digit field as `'0' + v / 10`, `'0' + v % 10`.
pub open spec fn date_bytes(d: u8, m: u8, y: u8) -> Seq<u8> {
    seq![
        (48 + d / 10) as u8,
        digit_char((d % 10) as nat),
        47u8,
        (48 + m / 10) as u8,
        digit_char((m % 10) as nat),
        47u8,
        50u8,
        48u8,
        (48 + y / 10) as u8,
        digit_char((y % 10) as nat),
    ]
}

/// The date line, French order.
pub fn fmt_date_fr(d: u8, m: u8, y: u8) -> (r: Vec<u8>)
    ensures
        r@ == date_bytes(d, m, y),
{
    let mut out: Vec<u8> = Vec::new();
    out.push(48 + d / 10);
    out.push(48 + d % 10);
    out.push(47u8);
    out.push(48 + m / 10);
    out.push(48 + m % 10);
    out.push(47u8);
    out.push(50u8);
    out.push(48u8);
    out.push(48 + y / 10);
    out.push(48 + y % 10);
    assert(out@ =~= date_bytes(d, m, y));
    out
}

/// A percentage: `100` from 100 on, else one or two digits, then `%`.
pub open spec fn percent_bytes(pct: u8) -> Seq<u8> {
    if pct >= 100 {
        seq![49u8, 48, 48, 37]
    } else if pct >= 10 {
        seq![digit_char((pct / 10) as nat), digit_char((pct % 10) as nat), 37u8]
    } else {
        seq![digit_char(pct as nat), 37u8]
    }
}

fn push_percent(out: &mut Vec<u8>, pct: u8)
    ensures
        final(out)@ == old(out)@ + percent_bytes(pct),
{
    if pct >= 100 {
        out.push(49u8);
        out.push(48u8);
        out.push(48u8);
    } else if pct >= 10 {
        out.push(48 + pct / 10);
        out.push(48 + pct % 10);
    } else {
        out.push(48 + pct);
    }
    out.push(37u8);
    assert(final(out)@ =~= old(out)@ + percent_bytes(pct));
}

/// The gauge label: the percentage, then ` CHG` while charging.
pub fn fmt_batt(pct: u8, chg: bool) -> (r: Vec<u8>)
    ensures
        r@ == percent_bytes(pct) + if chg { seq![32u8, 67, 72, 71] } else { seq![] },
{
    let mut out: Vec<u8> = Vec::new();
    push_percent(&mut out, pct);
    if chg {
        let tail: [u8; 4] = [32u8, 67, 72, 71];
        push_all(&mut out, tail.as_slice());
        assert(tail@ =~= seq![32u8, 67, 72, 71]);
    }
    assert(out@ =~= percent_bytes(pct) + if chg { seq![32u8, 67, 72, 71] } else { seq![] });
    out
}

/// The always-on display's battery label.
pub fn fmt_bat_short(pct: u8) -> (r: Vec<u8>)
    ensures
        r@ == percent_bytes(pct),
{
    let mut out: Vec<u8> = Vec::new();
    push_percent(&mut out, pct);
    assert(out@ =~= percent_bytes(pct));
    out
}

/// A render pass leaves nothing to draw: a second pass right after it
/// draws nothing and flushes nothing.
pub proof fn lemma_render_settles(f: WatchFace)
    ensures
        ({
            let g = spec_render(f).0;
            let p = spec_render(g).1;
            p.outcome == no_outcome() && p.ball is None
        }),
{
}

/// Tapping the CPU button three times comes back to the frequency it started
/// from, for each of the three offered frequencies.
pub proof fn lemma_cpu_cycle_period(mhz: u16)
    requires
        mhz == 80 || mhz == 160 || mhz == 240,
    ensures
        next_cpu_mhz(next_cpu_mhz(next_cpu_mhz(mhz))) == mhz,
{
}

/// The slider never turns the panel fully off: a tap on it selects at
/// least 0x10, and its right end selects 0xFF.
pub proof fn lemma_slider_never_off(x: u16, y: u16)
    ensures
        spec_brightness_from_tap(x, y) matches Some(b) ==> 0x10 <= b,
        spec_brightness_from_tap((BRI_SLIDER_X + BRI_SLIDER_W) as u16, BRI_SLIDER_Y as u16) == Some(0xFFu8),
{
}

/// Vertical burn-in shift of the always-on clock at a given minute.
pub open spec fn aod_shift_y(minutes: u8) -> int {
    minutes % 8 - 4
}

/// The always-on clock moves at most 4 pixels from its rest position, and the
/// shift repeats every 8 minutes.
pub proof fn lemma_aod_shift_small(minutes: u8)
    ensures
        -4 <= aod_shift_y(minutes) <= 3,
        minutes + 8 <= 255 ==> aod_shift_y((minutes + 8) as u8) == aod_shift_y(minutes),
{
}

} // verus!
