//! The app launcher: a scrollable list of apps. Swipe up/down scrolls (with
//! an easing animation toward the target offset), swipe right goes back to
//! the watch face, a tap opens the app under the finger.

use vstd::prelude::*;
use crate::apps::AppState;
use crate::peripherals::touch::SwipeDirection;
use crate::ui::color::{rgb565, spec_rgb565, GREEN, YELLOW, CYAN, WHITE};
use crate::ui::t9_keyboard::trunc_div;
use crate::ui::watchface::clamp;

verus! {

pub const ITEM_H: i32 = 65;
pub const ITEM_GAP: i32 = 6;
pub const MARGIN_X: i32 = 20;
pub const START_Y: i32 = 55;
pub const SCREEN_W: i32 = 368;
pub const SCREEN_H: i32 = 448;
pub const SCREEN_CX: i32 = 184;
/// Number of apps in the list.
pub const MENU_LEN: usize = 8;
/// How far the list scrolls: its height less the visible part.
pub const MAX_SCROLL: i32 = 175;

/// One entry of the list.
#[derive(Clone, Copy)]
pub struct MenuItem {
    pub name: &'static str,
    pub state: AppState,
    pub bg_color: u16,
    pub text_color: u16,
}

/// The app opened by the `i`-th entry.
pub open spec fn menu_state(i: int) -> AppState {
    if i == 0 {
        AppState::Snake
    } else if i == 1 {
        AppState::Game2048
    } else if i == 2 {
        AppState::Tetris
    } else if i == 3 {
        AppState::Flappy
    } else if i == 4 {
        AppState::Maze
    } else if i == 5 {
        AppState::Mp3Player
    } else if i == 6 {
        AppState::SmartHome
    } else {
        AppState::Settings
    }
}

/// Background and text colour of the `i`-th entry.
pub open spec fn menu_colors(i: int) -> (u16, u16) {
    if i == 0 {
        (spec_rgb565(2, 20, 2), GREEN)
    } else if i == 1 {
        (spec_rgb565(15, 10, 0), YELLOW)
    } else if i == 2 {
        (spec_rgb565(0, 10, 15), CYAN)
    } else if i == 3 {
        (spec_rgb565(15, 12, 0), WHITE)
    } else if i == 4 {
        (spec_rgb565(2, 4, 15), WHITE)
    } else if i == 5 {
        (spec_rgb565(0, 8, 15), CYAN)
    } else if i == 6 {
        (spec_rgb565(8, 4, 15), spec_rgb565(20, 10, 31))
    } else {
        (spec_rgb565(6, 12, 6), WHITE)
    }
}

/// Label of the `i`-th entry.
pub open spec fn menu_name(i: int) -> Seq<char> {
    if i == 0 {
        "Snake"@
    } else if i == 1 {
        "2048"@
    } else if i == 2 {
        "Tetris"@
    } else if i == 3 {
        "Flappy Bird"@
    } else if i == 4 {
        "Maze (Tilt)"@
    } else if i == 5 {
        "MP3 Player"@
    } else if i == 6 {
        "Smart Home"@
    } else {
        "设置"@
    }
}

/// The `i`-th entry: Snake, 2048, Tetris, Flappy Bird, Maze, MP3 Player,
/// Smart Home and Settings (labelled in Chinese), with their colours.
pub fn menu_item(i: usize) -> (m: MenuItem)
    requires
        i < MENU_LEN,
    ensures
        m.state == menu_state(i as int),
        m.name@ == menu_name(i as int),
        (m.bg_color, m.text_color) == menu_colors(i as int),
{
    match i {
        0 => MenuItem { name: "Snake", state: AppState::Snake, bg_color: rgb565(2, 20, 2), text_color: GREEN },
        1 => MenuItem { name: "2048", state: AppState::Game2048, bg_color: rgb565(15, 10, 0), text_color: YELLOW },
        2 => MenuItem { name: "Tetris", state: AppState::Tetris, bg_color: rgb565(0, 10, 15), text_color: CYAN },
        3 => MenuItem {
            name: "Flappy Bird",
            state: AppState::Flappy,
            bg_color: rgb565(15, 12, 0),
            text_color: WHITE,
        },
        4 => MenuItem {
            name: "Maze (Tilt)",
            state: AppState::Maze,
            bg_color: rgb565(2, 4, 15),
            text_color: WHITE,
        },
        5 => MenuItem {
            name: "MP3 Player",
            state: AppState::Mp3Player,
            bg_color: rgb565(0, 8, 15),
            text_color: CYAN,
        },
        6 => MenuItem {
            name: "Smart Home",
            state: AppState::SmartHome,
            bg_color: rgb565(8, 4, 15),
            text_color: rgb565(20, 10, 31),
        },
        _ => MenuItem {
            name: "设置",
            state: AppState::Settings,
            bg_color: rgb565(6, 12, 6),
            text_color: WHITE,
        },
    }
}

/// List position `y` (screen y plus scroll) lies on entry `i`.
pub open spec fn on_item(y: int, i: int) -> bool {
    0 <= i < MENU_LEN && START_Y + i * (ITEM_H + ITEM_GAP) <= y < START_Y + i * (ITEM_H + ITEM_GAP) + ITEM_H
}

/// Scroll target after a swipe: up by 120 (to at most `MAX_SCROLL`), down by
/// 120 (to at least 0).
pub open spec fn swipe_target(target: int, swipe: Option<SwipeDirection>) -> int {
    match swipe {
        Some(SwipeDirection::Up) => if target + 120 < MAX_SCROLL { target + 120 } else { MAX_SCROLL as int },
        Some(SwipeDirection::Down) => if target - 120 > 0 { target - 120 } else { 0 },
        _ => target,
    }
}

/// One animation frame: the offset moves 13/20 of the way to the target
/// (at most 64 pixels), and snaps to it once within one pixel.
pub open spec fn scroll_step(scroll: int, target: int) -> int {
    let diff = target - scroll;
    if diff > 1 || diff < -1 {
        let step = clamp(trunc_div(diff * 13, 20), -64, 64);
        scroll + if step == 0 {
            if diff > 0 { 1int } else { -1int }
        } else {
            step
        }
    } else {
        target
    }
}

/// Scroll state of the list.
pub struct Launcher {
    pub scroll_offset: i32,
    pub target_scroll: i32,
}

impl Launcher {
    /// Both offsets within the list.
    pub open spec fn wf(&self) -> bool {
        0 <= self.scroll_offset <= MAX_SCROLL && 0 <= self.target_scroll <= MAX_SCROLL
    }

    /// At the top of the list.
    pub fn new() -> (l: Self)
        ensures
            l.wf(),
            l.scroll_offset == 0 && l.target_scroll == 0,
    {
        Launcher { scroll_offset: 0, target_scroll: 0 }
    }

    fn div20_toward_zero(a: i32) -> (r: i32)
        requires
            -100000 <= a <= 100000,
        ensures
            r == trunc_div(a as int, 20),
    {
        if a >= 0 {
            a / 20
        } else {
            -((-a) / 20)
        }
    }

    /// Handles one frame of input; returns the screen to switch to, if any.
    pub fn update(&mut self, swipe: Option<SwipeDirection>, tap: bool, tap_y: u16) -> (r: Option<AppState>)
        requires
            old(self).wf(),
        ensures
            final(self).wf(),
            swipe == Some(SwipeDirection::Right) ==> r == Some(AppState::Watchface) && final(self).scroll_offset == old(self).scroll_offset
                && final(self).target_scroll == old(self).target_scroll,
            swipe != Some(SwipeDirection::Right) ==> {
                &&& final(self).target_scroll == swipe_target(old(self).target_scroll as int, swipe)
                &&& final(self).scroll_offset == scroll_step(
                    old(self).scroll_offset as int,
                    final(self).target_scroll as int,
                )
                &&& !tap ==> r is None
                &&& tap ==> {
                    let y = tap_y + final(self).scroll_offset;
                    &&& r is Some <==> exists|i: int| on_item(y, i)
                    &&& forall|i: int| on_item(y, i) ==> r == Some(menu_state(i))
                }
            },
    {
        match swipe {
            Some(SwipeDirection::Up) => {
                let t = self.target_scroll + 120;
                self.target_scroll = if t < MAX_SCROLL { t } else { MAX_SCROLL };
            },
            Some(SwipeDirection::Down) => {
                let t = self.target_scroll - 120;
                self.target_scroll = if t > 0 { t } else { 0 };
            },
            Some(SwipeDirection::Right) => {
                return Some(AppState::Watchface);
            },
            _ => {},
        }
        let diff = self.target_scroll - self.scroll_offset;
        if diff > 1 || diff < -1 {
            let q = Self::div20_toward_zero(diff * 13);
            let step = if q < -64 {
                -64
            } else if q > 64 {
                64
            } else {
                q
            };
            let delta = if step == 0 {
                if diff > 0 {
                    1
                } else {
                    -1
                }
            } else {
                step
            };
            self.scroll_offset = self.scroll_offset + delta;
        } else {
            self.scroll_offset = self.target_scroll;
        }
        if tap {
            let y: i32 = tap_y as i32 + self.scroll_offset;
            if y >= START_Y {
                let k: i32 = (y - START_Y) / (ITEM_H + ITEM_GAP);
                let rem: i32 = (y - START_Y) % (ITEM_H + ITEM_GAP);
                assert(y - START_Y == k * 71 + rem);
                if k < MENU_LEN as i32 && rem < ITEM_H {
                    assert(on_item(y as int, k as int));
                    return Some(menu_item(k as usize).state);
                }
                assert forall|i: int| !on_item(y as int, i) by {
                    if on_item(y as int, i) {
                        if i < k {
                            assert(i * 71 + 71 <= k * 71) by (nonlinear_arith)
                                requires
                                    i < k,
                            ;
                        } else if i > k {
                            assert(k * 71 + 71 <= i * 71) by (nonlinear_arith)
                                requires
                                    k < i,
                            ;
                        }
                    }
                }
            }
        }
        None
    }

    /// Top of entry `i` on screen, when any of it is visible.
    pub fn item_top(&self, i: usize) -> (r: Option<i32>)
        requires
            self.wf(),
            i < MENU_LEN,
        ensures
            ({
                let y = START_Y + i * (ITEM_H + ITEM_GAP) - self.scroll_offset;
                r == if y + ITEM_H < 0 || y > SCREEN_H { None } else { Some(y as i32) }
            }),
    {
        let y = START_Y + (i as i32) * (ITEM_H + ITEM_GAP) - self.scroll_offset;
        if y + ITEM_H < 0 || y > SCREEN_H {
            None
        } else {
            Some(y)
        }
    }
}

/// The 16x16 bitmap of 设 (rows, most significant bit leftmost).
pub const GLYPH_SHE: [u16; 16] = [
    0x1000, 0x0000, 0x3E7C, 0x1044, 0x1044, 0x3E7C, 0x1010, 0x2828,
    0x4428, 0x8248, 0x0148, 0x0288, 0x0408, 0x0810, 0x100E, 0x0000,
];

/// The 16x16 bitmap of 置.
pub const GLYPH_ZHI: [u16; 16] = [
    0xFFFE, 0x8002, 0xFFFE, 0x1FF8, 0x1110, 0x1FF8, 0x1110, 0x1FF8,
    0x1110, 0x1110, 0x1FF8, 0x1110, 0x1110, 0x1FF8, 0xFFFE, 0x0000,
];

/// Pixel (row, col) of a 16x16 glyph is set.
pub fn glyph_pixel(glyph: &[u16; 16], row: usize, col: u32) -> (on: bool)
    requires
        row < 16,
        col < 16,
    ensures
        on == (glyph@[row as int] & (0x8000u16 >> col) != 0),
{
    glyph[row] & (0x8000u16 >> col) != 0
}

/// Each animation frame moves the offset toward the target without passing
/// it, and strictly closer while they differ.
pub proof fn lemma_scroll_approaches(scroll: int, target: int)
    requires
        0 <= scroll <= MAX_SCROLL,
        0 <= target <= MAX_SCROLL,
    ensures
        scroll <= target ==> scroll <= scroll_step(scroll, target) <= target,
        target <= scroll ==> target <= scroll_step(scroll, target) <= scroll,
        scroll != target ==> (if target >= scroll_step(scroll, target) {
            target - scroll_step(scroll, target)
        } else {
            scroll_step(scroll, target) - target
        }) < (if target >= scroll { target - scroll } else { scroll - target }),
{
}

} // verus!
