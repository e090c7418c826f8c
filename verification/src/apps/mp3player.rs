//! MP3 player screen state: play/pause on tap, previous/next track on swipe.
//! Decoding and streaming are done by the caller.

use vstd::prelude::*;
use vstd::utf8::valid_utf8;
use vstd::string::StringSliceAdditionalSpecFns;
use crate::apps::AppResult;
use crate::peripherals::touch::SwipeDirection;
use crate::peripherals::wifi::{copy_prefix, truncated};
use crate::text::{digit_char, prefix_str_or, push_all, utf8_or};
use crate::ui::color::{GREEN, RED, YELLOW};

verus! {

/// Width of the progress bar in pixels.
pub const PROGRESS_BAR_W: i32 = 300;

#[derive(Clone, Copy, PartialEq, Eq, Debug, Structural)]
pub enum PlayerState {
    Stopped,
    Playing,
    Paused,
}

pub struct Mp3Player {
    pub state: PlayerState,
    pub track_index: usize,
    pub track_count: usize,
    pub track_name: [u8; 32],
    pub track_name_len: usize,
    /// Percent of the track played (0-100).
    pub progress: u8,
}

impl Mp3Player {
    pub open spec fn name_bytes(&self) -> Seq<u8> {
        self.track_name@.subrange(0, self.track_name_len as int)
    }

    pub fn new() -> (p: Self)
        ensures
            p.state == PlayerState::Stopped,
            p.track_index == 0 && p.track_count == 0 && p.track_name_len == 0 && p.progress == 0,
            forall|i: int| 0 <= i < 32 ==> p.track_name@[i] == 0,
    {
        Mp3Player {
            state: PlayerState::Stopped,
            track_index: 0,
            track_count: 0,
            track_name: [0u8; 32],
            track_name_len: 0,
            progress: 0,
        }
    }

    pub fn state(&self) -> (s: PlayerState)
        ensures
            s == self.state,
    {
        self.state
    }

    pub fn set_state(&mut self, state: PlayerState)
        ensures
            *final(self) == (Mp3Player { state, ..*old(self) }),
    {
        self.state = state;
    }

    pub fn track_index(&self) -> (i: usize)
        ensures
            i == self.track_index,
    {
        self.track_index
    }

    /// Selects a track, clamped to the last one (0 when there are none).
    pub fn set_track_index(&mut self, track_index: usize)
        ensures
            final(self).track_index == if track_index < old(self).track_count {
                track_index as int
            } else if old(self).track_count == 0 {
                0
            } else {
                old(self).track_count - 1
            },
            *final(self) == (Mp3Player { track_index: final(self).track_index, ..*old(self) }),
    {
        let last = self.track_count.saturating_sub(1);
        self.track_index = if track_index < last {
            track_index
        } else {
            last
        };
    }

    pub fn set_track_count(&mut self, count: usize)
        ensures
            *final(self) == (Mp3Player { track_count: count, ..*old(self) }),
    {
        self.track_count = count;
    }

    /// Stores the track name, cut to 32 bytes.
    pub fn set_track_name(&mut self, name: &str)
        ensures
            final(self).track_name_len <= 32,
            final(self).name_bytes() == truncated(name.spec_bytes(), 32),
            forall|i: int| final(self).track_name_len <= i < 32 ==> #[trigger] final(self).track_name@[i] == old(self).track_name@[i],
            final(self).state == old(self).state && final(self).track_index == old(self).track_index,
            final(self).track_count == old(self).track_count && final(self).progress == old(self).progress,
    {
        let bytes = name.as_bytes();
        let len = if bytes.len() < 32 {
            bytes.len()
        } else {
            32
        };
        copy_prefix(&mut self.track_name, bytes, len);
        self.track_name_len = len;
    }

    /// Filled width of the progress bar.
    pub fn progress_fill_width(&self) -> (w: i32)
        ensures
            w == self.progress as int * PROGRESS_BAR_W / 100,
    {
        (self.progress as i32 * PROGRESS_BAR_W) / 100
    }

    /// Status line: the state's name in red, green or yellow.
    pub fn state_label(&self) -> (r: (&'static str, u16))
        ensures
            self.state == PlayerState::Stopped ==> r.0@ == "STOPPED"@ && r.1 == RED,
            self.state == PlayerState::Playing ==> r.0@ == "PLAYING"@ && r.1 == GREEN,
            self.state == PlayerState::Paused ==> r.0@ == "PAUSED"@ && r.1 == YELLOW,
    {
        match self.state {
            PlayerState::Stopped => ("STOPPED", RED),
            PlayerState::Playing => ("PLAYING", GREEN),
            PlayerState::Paused => ("PAUSED", YELLOW),
        }
    }

    /// Sets the progress in percent, at most 100.
    pub fn set_progress(&mut self, progress: u8)
        ensures
            final(self).progress == if progress < 100 {
                progress
            } else {
                100
            },
            *final(self) == (Mp3Player { progress: final(self).progress, ..*old(self) }),
    {
        self.progress = if progress < 100 {
            progress
        } else {
            100
        };
    }

    /// The track name as text, or `???` when it is not UTF-8.
    pub fn track_name_str(&self) -> (r: &str)
        requires
            self.track_name_len <= 32,
        ensures
            valid_utf8(self.name_bytes()) ==> r.spec_bytes() == self.name_bytes(),
            !valid_utf8(self.name_bytes()) ==> r == "???",
    {
        prefix_str_or(self.track_name.as_slice(), self.track_name_len, "???")
    }

    /// Entering the player: stopped at the start of the track; with no
    /// tracks the name says so.
    pub fn setup(&mut self)
        ensures
            final(self).state == PlayerState::Stopped,
            final(self).progress == 0,
            final(self).track_count == old(self).track_count,
            old(self).track_count == 0 ==> final(self).track_index == 0 && final(self).name_bytes()
                == truncated("No tracks found".spec_bytes(), 32) && final(self).track_name_len <= 32,
            old(self).track_count != 0 ==> final(self).track_index == old(self).track_index
                && final(self).track_name == old(self).track_name && final(self).track_name_len
                == old(self).track_name_len,
    {
        self.state = PlayerState::Stopped;
        self.progress = 0;
        if self.track_count == 0 {
            self.track_index = 0;
            self.set_track_name("No tracks found");
        }
    }

    /// Tap toggles play/pause (a stopped player starts); a right swipe goes to
    /// the next track and a left swipe to the previous one, wrapping around,
    /// each restarting the progress.
    pub fn update(&mut self, tap: bool, swipe: Option<SwipeDirection>) -> (r: AppResult)
        requires
            swipe == Some(SwipeDirection::Right) && old(self).track_count > 0 ==> old(self).track_index
                < usize::MAX,
        ensures
            r == AppResult::Continue,
            final(self).state == if tap {
                if old(self).state == PlayerState::Playing {
                    PlayerState::Paused
                } else {
                    PlayerState::Playing
                }
            } else {
                old(self).state
            },
            final(self).track_count == old(self).track_count,
            final(self).track_name == old(self).track_name,
            final(self).track_name_len == old(self).track_name_len,
            ({
                let n = old(self).track_count;
                let i = old(self).track_index;
                if n > 0 && swipe == Some(SwipeDirection::Right) {
                    final(self).track_index == (i + 1) % (n as int) && final(self).progress == 0
                } else if n > 0 && swipe == Some(SwipeDirection::Left) {
                    final(self).track_index == (if i == 0 {
                        n - 1
                    } else {
                        i - 1
                    }) && final(self).progress == 0
                } else {
                    final(self).track_index == i && final(self).progress == old(self).progress
                }
            }),
    {
        if tap {
            self.state = match self.state {
                PlayerState::Stopped | PlayerState::Paused => PlayerState::Playing,
                PlayerState::Playing => PlayerState::Paused,
            };
        }
        if let Some(SwipeDirection::Right) = swipe {
            if self.track_count > 0 {
                self.track_index = (self.track_index + 1) % self.track_count;
                self.progress = 0;
            }
        }
        if let Some(SwipeDirection::Left) = swipe {
            if self.track_count > 0 {
                self.track_index = if self.track_index == 0 {
                    self.track_count - 1
                } else {
                    self.track_index - 1
                };
                self.progress = 0;
            }
        }
        AppResult::Continue
    }
}

/// One or two digits of `v` as shown in the track label: the tens digit (as
/// the byte `'0' + (v / 10) mod 256`) only when `v >= 10`, then the units.
pub open spec fn short_number(v: nat) -> Seq<u8> {
    if v >= 10 {
        seq![(48 + (v / 10) % 256) as u8, digit_char(v % 10)]
    } else {
        seq![digit_char(v % 10)]
    }
}

/// The tens byte of the label stays within a byte.
pub open spec fn short_number_fits(v: nat) -> bool {
    v < 10 || (v / 10) % 256 <= 207
}

/// `Track X/Y`.
pub open spec fn track_label(current: nat, total: nat) -> Seq<u8> {
    seq![84u8, 114, 97, 99, 107, 32] + short_number(current) + seq![47u8] + short_number(total)
}

/// `Track X/Y`, or `Track ?/?` when the label bytes are not UTF-8.
pub fn fmt_track(current: usize, total: usize) -> (r: Vec<u8>)
    requires
        short_number_fits(current as nat),
        short_number_fits(total as nat),
    ensures
        r@ == if valid_utf8(track_label(current as nat, total as nat)) {
            track_label(current as nat, total as nat)
        } else {
            seq![84u8, 114, 97, 99, 107, 32, 63, 47, 63]
        },
{
    let mut out = Vec::new();
    let prefix: [u8; 6] = [84u8, 114, 97, 99, 107, 32];
    push_all(&mut out, prefix.as_slice());
    push_short_number(&mut out, current);
    out.push(47u8);
    push_short_number(&mut out, total);
    assert(out@ =~= track_label(current as nat, total as nat));
    let fallback: [u8; 9] = [84u8, 114, 97, 99, 107, 32, 63, 47, 63];
    assert(fallback@ =~= seq![84u8, 114, 97, 99, 107, 32, 63, 47, 63]);
    utf8_or(out, fallback.as_slice())
}

fn push_short_number(out: &mut Vec<u8>, v: usize)
    requires
        short_number_fits(v as nat),
    ensures
        final(out)@ == old(out)@ + short_number(v as nat),
{
    if v >= 10 {
        let t: u8 = ((v / 10) % 256) as u8;
        out.push(48 + t);
    }
    out.push(48 + (v % 10) as u8);
    assert(final(out)@ =~= old(out)@ + short_number(v as nat));
}

} // verus!
