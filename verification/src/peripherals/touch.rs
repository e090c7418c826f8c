//! FT3168 capacitive touch controller (I2C address 0x38): report decoding,
//! gesture ids, and swipe detection from successive polls.

use vstd::prelude::*;
use crate::peripherals::bus::{RegStep, w};

verus! {

pub const FT3168_ADDR: u8 = 0x38;
pub const REG_FINGER_NUM: u8 = 0x02;
pub const REG_X1_H: u8 = 0x03;
pub const REG_X1_L: u8 = 0x04;
pub const REG_Y1_H: u8 = 0x05;
pub const REG_Y1_L: u8 = 0x06;
pub const REG_POWER_MODE: u8 = 0xA5;
pub const REG_GESTURE_ID: u8 = 0xD3;

/// Minimum travel (in pixels, on either axis) for a touch to count as a swipe.
pub const SWIPE_MIN: u32 = 30;

#[derive(Debug, Clone, Copy, PartialEq, Eq)]
pub struct TouchPoint {
    pub x: u16,
    pub y: u16,
    pub fingers: u8,
}

/// Gesture ids reported by the controller.
#[derive(Debug, Clone, Copy, PartialEq, Eq)]
pub enum Gesture {
    /// Id 0: no gesture (named `None` on the controller's data sheet).
    NoGesture,
    SwipeUp,
    SwipeDown,
    SwipeLeft,
    SwipeRight,
    SingleTap,
    DoubleTap,
    LongPress,
    Unknown(u8),
}

/// A completed touch: direction plus where it started and ended.
#[derive(Debug, Clone, Copy, PartialEq, Eq)]
pub struct SwipeEvent {
    pub direction: SwipeDirection,
    pub start_x: u16,
    pub start_y: u16,
    pub end_x: u16,
    pub end_y: u16,
}

#[derive(Debug, Clone, Copy, PartialEq, Eq, Structural)]
pub enum SwipeDirection {
    Up,
    Down,
    Left,
    Right,
    Tap,
}

pub open spec fn abs_int(v: int) -> int {
    if v < 0 {
        -v
    } else {
        v
    }
}

/// Direction of a touch that went from (sx, sy) to (ex, ey): a tap when it
/// moved less than 30 px on both axes, otherwise the dominant axis if it is
/// more than 1.5 times the other, otherwise (diagonal) a tap.
pub open spec fn classify_swipe(sx: u16, sy: u16, ex: u16, ey: u16) -> SwipeDirection {
    let dx = ex - sx;
    let dy = ey - sy;
    let adx = abs_int(dx);
    let ady = abs_int(dy);
    if adx < 30 && ady < 30 {
        SwipeDirection::Tap
    } else if adx > ady * 3 / 2 {
        if dx > 0 {
            SwipeDirection::Right
        } else {
            SwipeDirection::Left
        }
    } else if ady > adx * 3 / 2 {
        if dy > 0 {
            SwipeDirection::Down
        } else {
            SwipeDirection::Up
        }
    } else {
        SwipeDirection::Tap
    }
}

/// The touch report (registers 0x02..0x06) decoded: no point when no finger is down.
pub open spec fn spec_decode_point(b: Seq<u8>) -> Option<TouchPoint> {
    if b[0] == 0 {
        None
    } else {
        Some(
            TouchPoint {
                x: (((b[1] & 0x0F) as u16) << 8u16) | (b[2] as u16),
                y: (((b[3] & 0x0F) as u16) << 8u16) | (b[4] as u16),
                fingers: b[0],
            },
        )
    }
}

pub open spec fn spec_gesture(id: u8) -> Gesture {
    if id == 0x00 {
        Gesture::NoGesture
    } else if id == 0x01 {
        Gesture::SwipeUp
    } else if id == 0x02 {
        Gesture::SwipeDown
    } else if id == 0x03 {
        Gesture::SwipeLeft
    } else if id == 0x04 {
        Gesture::SwipeRight
    } else if id == 0x05 {
        Gesture::SingleTap
    } else if id == 0x0B {
        Gesture::DoubleTap
    } else if id == 0x0C {
        Gesture::LongPress
    } else {
        Gesture::Unknown(id)
    }
}

/// Touch controller state: whether a finger is being tracked, where the
/// touch started and where it was last seen.
pub struct Ft3168Touch {
    pub tracking: bool,
    pub start_x: u16,
    pub start_y: u16,
    pub last_x: u16,
    pub last_y: u16,
}

impl Ft3168Touch {
    pub fn new() -> (r: Self)
        ensures
            !r.tracking,
            r.start_x == 0 && r.start_y == 0 && r.last_x == 0 && r.last_y == 0,
    {
        Ft3168Touch { tracking: false, start_x: 0, start_y: 0, last_x: 0, last_y: 0 }
    }

    /// Start-up script: monitor power mode (wakes on touch).
    pub fn init(&self) -> (r: Vec<RegStep>)
        ensures
            r@ == seq![w(REG_POWER_MODE, 0x01)],
    {
        let mut v = Vec::new();
        v.push(RegStep::Write { reg: REG_POWER_MODE, val: 0x01 });
        assert(v@ =~= seq![w(REG_POWER_MODE, 0x01)]);
        v
    }

    /// Decodes the five-byte report read from register 0x02.
    pub fn read(&self, buf: &[u8; 5]) -> (r: Option<TouchPoint>)
        ensures
            r == spec_decode_point(buf@),
    {
        let fingers = buf[0];
        if fingers == 0 {
            return None;
        }
        let x = (((buf[1] & 0x0F) as u16) << 8) | buf[2] as u16;
        let y = (((buf[3] & 0x0F) as u16) << 8) | buf[4] as u16;
        Some(TouchPoint { x, y, fingers })
    }

    pub fn is_tracking(&self) -> (r: bool)
        ensures
            r == self.tracking,
    {
        self.tracking
    }

    /// Feeds one touch reading (`None`: no finger). While a finger is down its
    /// position is tracked and returned; when it lifts after being tracked, the
    /// completed gesture is returned once.
    pub fn poll(&mut self, point: Option<TouchPoint>) -> (r: (Option<TouchPoint>, Option<SwipeEvent>))
        ensures
            match point {
                Some(tp) => {
                    &&& r == (Some(tp), None::<SwipeEvent>)
                    &&& final(self).tracking
                    &&& final(self).last_x == tp.x && final(self).last_y == tp.y
                    &&& old(self).tracking ==> final(self).start_x == old(self).start_x
                        && final(self).start_y == old(self).start_y
                    &&& !old(self).tracking ==> final(self).start_x == tp.x && final(self).start_y
                        == tp.y
                },
                None => {
                    &&& !final(self).tracking
                    &&& final(self).start_x == old(self).start_x && final(self).start_y == old(
                        self,
                    ).start_y
                    &&& final(self).last_x == old(self).last_x && final(self).last_y == old(
                        self,
                    ).last_y
                    &&& r.0 is None
                    &&& old(self).tracking ==> r.1 == Some(
                        SwipeEvent {
                            direction: classify_swipe(
                                old(self).start_x,
                                old(self).start_y,
                                old(self).last_x,
                                old(self).last_y,
                            ),
                            start_x: old(self).start_x,
                            start_y: old(self).start_y,
                            end_x: old(self).last_x,
                            end_y: old(self).last_y,
                        },
                    )
                    &&& !old(self).tracking ==> r.1 is None
                },
            },
    {
        match point {
            Some(tp) => {
                if !self.tracking {
                    self.tracking = true;
                    self.start_x = tp.x;
                    self.start_y = tp.y;
                }
                self.last_x = tp.x;
                self.last_y = tp.y;
                (Some(tp), None)
            },
            None => {
                if self.tracking {
                    self.tracking = false;
                    let direction = Self::swipe_direction(
                        self.start_x,
                        self.start_y,
                        self.last_x,
                        self.last_y,
                    );
                    let event = SwipeEvent {
                        direction,
                        start_x: self.start_x,
                        start_y: self.start_y,
                        end_x: self.last_x,
                        end_y: self.last_y,
                    };
                    (None, Some(event))
                } else {
                    (None, None)
                }
            },
        }
    }

    /// The direction of a touch from (sx, sy) to (ex, ey).
    pub fn swipe_direction(sx: u16, sy: u16, ex: u16, ey: u16) -> (r: SwipeDirection)
        ensures
            r == classify_swipe(sx, sy, ex, ey),
    {
        let dx: i32 = ex as i32 - sx as i32;
        let dy: i32 = ey as i32 - sy as i32;
        let abs_dx: u32 = if dx < 0 {
            (-dx) as u32
        } else {
            dx as u32
        };
        let abs_dy: u32 = if dy < 0 {
            (-dy) as u32
        } else {
            dy as u32
        };
        if abs_dx < 30 && abs_dy < 30 {
            SwipeDirection::Tap
        } else if abs_dx > abs_dy * 3 / 2 {
            if dx > 0 {
                SwipeDirection::Right
            } else {
                SwipeDirection::Left
            }
        } else if abs_dy > abs_dx * 3 / 2 {
            if dy > 0 {
                SwipeDirection::Down
            } else {
                SwipeDirection::Up
            }
        } else {
            SwipeDirection::Tap
        }
    }

    /// Decodes the gesture id register.
    pub fn read_gesture(&self, id: u8) -> (r: Gesture)
        ensures
            r == spec_gesture(id),
    {
        match id {
            0x00 => Gesture::NoGesture,
            0x01 => Gesture::SwipeUp,
            0x02 => Gesture::SwipeDown,
            0x03 => Gesture::SwipeLeft,
            0x04 => Gesture::SwipeRight,
            0x05 => Gesture::SingleTap,
            0x0B => Gesture::DoubleTap,
            0x0C => Gesture::LongPress,
            other => Gesture::Unknown(other),
        }
    }
}

/// A touch that stays within 30 px of where it started is a tap.
pub proof fn lemma_short_touch_is_tap(sx: u16, sy: u16, ex: u16, ey: u16)
    requires
        abs_int(ex - sx) < 30,
        abs_int(ey - sy) < 30,
    ensures
        classify_swipe(sx, sy, ex, ey) == SwipeDirection::Tap,
{
}

/// A swipe is never reported against the direction of travel: a Right swipe
/// moved right, Left moved left, Down moved down and Up moved up, each by at
/// least 30 px on that axis.
pub proof fn lemma_swipe_follows_motion(sx: u16, sy: u16, ex: u16, ey: u16)
    ensures
        classify_swipe(sx, sy, ex, ey) == SwipeDirection::Right ==> ex >= sx + 30,
        classify_swipe(sx, sy, ex, ey) == SwipeDirection::Left ==> sx >= ex + 30,
        classify_swipe(sx, sy, ex, ey) == SwipeDirection::Down ==> ey >= sy + 30,
        classify_swipe(sx, sy, ex, ey) == SwipeDirection::Up ==> sy >= ey + 30,
{
}

} // verus!
