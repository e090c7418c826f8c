//! Voice recorder screen: a tap asks the main loop to start or stop
//! recording; the loop reports back the file name, progress and outcome.

use vstd::prelude::*;
use vstd::utf8::valid_utf8;
use vstd::string::StringSliceAdditionalSpecFns;
use crate::apps::AppResult;
use crate::peripherals::wifi::{copy_prefix, truncated};
use crate::text::{decimal, prefix_str_or, push_all, push_capped_decimal, utf8_or};
use crate::ui::color::{GRAY, RED, YELLOW};

verus! {

#[derive(Clone, Copy, PartialEq, Eq, Debug, Structural)]
pub enum RecorderState {
    Stopped,
    Recording,
    Error,
}

pub struct RecorderApp {
    pub state: RecorderState,
    pub toggle_requested: bool,
    pub bytes_written: u32,
    pub file_name: [u8; 16],
    pub file_name_len: usize,
    pub status: [u8; 32],
    pub status_len: usize,
}

impl RecorderApp {
    pub open spec fn file_name_bytes(&self) -> Seq<u8> {
        self.file_name@.subrange(0, self.file_name_len as int)
    }

    pub open spec fn status_bytes(&self) -> Seq<u8> {
        self.status@.subrange(0, self.status_len as int)
    }

    pub open spec fn wf(&self) -> bool {
        self.file_name_len <= 16 && self.status_len <= 32
    }

    pub fn new() -> (app: Self)
        ensures
            app.wf(),
            app.state == RecorderState::Stopped,
            !app.toggle_requested,
            app.bytes_written == 0,
            app.file_name_bytes() == truncated("--.PCM".spec_bytes(), 16),
            app.status_bytes() == truncated("Tap to record".spec_bytes(), 32),
            forall|i: int| app.file_name_len <= i < 16 ==> #[trigger] app.file_name@[i] == 0,
            forall|i: int| app.status_len <= i < 32 ==> #[trigger] app.status@[i] == 0,
    {
        let mut app = RecorderApp {
            state: RecorderState::Stopped,
            toggle_requested: false,
            bytes_written: 0,
            file_name: [0u8; 16],
            file_name_len: 0,
            status: [0u8; 32],
            status_len: 0,
        };
        app.set_file_name("--.PCM");
        app.set_status("Tap to record");
        app
    }

    pub fn state(&self) -> (s: RecorderState)
        ensures
            s == self.state,
    {
        self.state
    }

    /// Returns whether a start/stop was requested since the last call, and clears the request.
    pub fn take_toggle_request(&mut self) -> (requested: bool)
        ensures
            requested == old(self).toggle_requested,
            *final(self) == (RecorderApp { toggle_requested: false, ..*old(self) }),
    {
        let requested = self.toggle_requested;
        self.toggle_requested = false;
        requested
    }

    /// Recording has started into `file_name`.
    pub fn set_recording(&mut self, file_name: &str)
        ensures
            final(self).wf(),
            final(self).state == RecorderState::Recording,
            final(self).bytes_written == 0,
            final(self).file_name_bytes() == truncated(file_name.spec_bytes(), 16),
            final(self).status_bytes() == truncated("Recording".spec_bytes(), 32),
            forall|i: int| final(self).file_name_len <= i < 16 ==> #[trigger] final(self).file_name@[i] == old(self).file_name@[i],
            forall|i: int| final(self).status_len <= i < 32 ==> #[trigger] final(self).status@[i] == old(self).status@[i],
            final(self).toggle_requested == old(self).toggle_requested,
    {
        self.state = RecorderState::Recording;
        self.bytes_written = 0;
        self.set_file_name(file_name);
        self.set_status("Recording");
    }

    /// Counts written bytes (the count is taken modulo 2^32, the total saturates).
    pub fn add_bytes(&mut self, bytes: usize)
        ensures
            final(self).bytes_written == if old(self).bytes_written + (bytes as int % 0x1_0000_0000)
                > u32::MAX {
                u32::MAX as int
            } else {
                old(self).bytes_written + (bytes as int % 0x1_0000_0000)
            },
            *final(self) == (RecorderApp { bytes_written: final(self).bytes_written, ..*old(self) }),
    {
        let b: u32 = (bytes as u64 % 0x1_0000_0000) as u32;
        self.bytes_written = self.bytes_written.saturating_add(b);
    }

    /// Recording finished and saved.
    pub fn set_stopped(&mut self)
        ensures
            final(self).status_len <= 32,
            final(self).state == RecorderState::Stopped,
            final(self).status_bytes() == truncated("Saved".spec_bytes(), 32),
            forall|i: int| final(self).status_len <= i < 32 ==> #[trigger] final(self).status@[i] == old(self).status@[i],
            final(self).bytes_written == old(self).bytes_written,
            final(self).file_name == old(self).file_name,
            final(self).file_name_len == old(self).file_name_len,
            final(self).toggle_requested == old(self).toggle_requested,
    {
        self.state = RecorderState::Stopped;
        self.set_status("Saved");
    }

    /// Recording failed with the given message.
    pub fn set_error(&mut self, status: &str)
        ensures
            final(self).status_len <= 32,
            final(self).state == RecorderState::Error,
            final(self).status_bytes() == truncated(status.spec_bytes(), 32),
            forall|i: int| final(self).status_len <= i < 32 ==> #[trigger] final(self).status@[i] == old(self).status@[i],
            final(self).bytes_written == old(self).bytes_written,
            final(self).file_name == old(self).file_name,
            final(self).file_name_len == old(self).file_name_len,
            final(self).toggle_requested == old(self).toggle_requested,
    {
        self.state = RecorderState::Error;
        self.set_status(status);
    }

    fn set_file_name(&mut self, file_name: &str)
        ensures
            final(self).file_name_len <= 16,
            final(self).file_name_bytes() == truncated(file_name.spec_bytes(), 16),
            forall|i: int| final(self).file_name_len <= i < 16 ==> #[trigger] final(self).file_name@[i] == old(self).file_name@[i],
            final(self).state == old(self).state && final(self).bytes_written == old(self).bytes_written,
            final(self).status == old(self).status && final(self).status_len == old(self).status_len,
            final(self).toggle_requested == old(self).toggle_requested,
    {
        let bytes = file_name.as_bytes();
        let len = if bytes.len() < 16 {
            bytes.len()
        } else {
            16
        };
        copy_prefix(&mut self.file_name, bytes, len);
        self.file_name_len = len;
    }

    fn set_status(&mut self, status: &str)
        ensures
            final(self).status_len <= 32,
            final(self).status_bytes() == truncated(status.spec_bytes(), 32),
            forall|i: int| final(self).status_len <= i < 32 ==> #[trigger] final(self).status@[i] == old(self).status@[i],
            final(self).state == old(self).state && final(self).bytes_written == old(self).bytes_written,
            final(self).file_name == old(self).file_name && final(self).file_name_len == old(
                self,
            ).file_name_len,
            final(self).toggle_requested == old(self).toggle_requested,
    {
        let bytes = status.as_bytes();
        let len = if bytes.len() < 32 {
            bytes.len()
        } else {
            32
        };
        copy_prefix(&mut self.status, bytes, len);
        self.status_len = len;
    }

    /// File name as text (`??.PCM` when not UTF-8).
    pub fn file_name_str(&self) -> (r: &str)
        requires
            self.wf(),
        ensures
            valid_utf8(self.file_name_bytes()) ==> r.spec_bytes() == self.file_name_bytes(),
            !valid_utf8(self.file_name_bytes()) ==> r == "??.PCM",
    {
        prefix_str_or(self.file_name.as_slice(), self.file_name_len, "??.PCM")
    }

    /// State line: the state's name in gray, red or yellow.
    pub fn state_label(&self) -> (r: (&'static str, u16))
        ensures
            self.state == RecorderState::Stopped ==> r.0@ == "STOPPED"@ && r.1 == GRAY,
            self.state == RecorderState::Recording ==> r.0@ == "RECORDING"@ && r.1 == RED,
            self.state == RecorderState::Error ==> r.0@ == "ERROR"@ && r.1 == YELLOW,
    {
        match self.state {
            RecorderState::Stopped => ("STOPPED", GRAY),
            RecorderState::Recording => ("RECORDING", RED),
            RecorderState::Error => ("ERROR", YELLOW),
        }
    }

    /// What a tap does next.
    pub fn tap_hint(&self) -> (r: &'static str)
        ensures
            self.state == RecorderState::Recording ==> r@ == "TAP: Stop"@,
            self.state != RecorderState::Recording ==> r@ == "TAP: Start"@,
    {
        if self.state == RecorderState::Recording {
            "TAP: Stop"
        } else {
            "TAP: Start"
        }
    }

    /// Status line as text (`Error` when not UTF-8).
    pub fn status_str(&self) -> (r: &str)
        requires
            self.wf(),
        ensures
            valid_utf8(self.status_bytes()) ==> r.spec_bytes() == self.status_bytes(),
            !valid_utf8(self.status_bytes()) ==> r == "Error",
    {
        prefix_str_or(self.status.as_slice(), self.status_len, "Error")
    }

    /// Entering the screen: any pending request is dropped; unless a
    /// recording is running the screen is reset to stopped.
    pub fn setup(&mut self)
        ensures
            !final(self).toggle_requested,
            old(self).state == RecorderState::Recording ==> *final(self) == (RecorderApp {
                toggle_requested: false,
                ..*old(self)
            }),
            old(self).state != RecorderState::Recording ==> {
                &&& final(self).state == RecorderState::Stopped
                &&& final(self).bytes_written == 0
                &&& final(self).status_bytes() == truncated("Tap to record".spec_bytes(), 32)
                &&& forall|i: int| final(self).status_len <= i < 32 ==> #[trigger] final(self).status@[i] == old(self).status@[i]
                &&& final(self).file_name == old(self).file_name
                &&& final(self).file_name_len == old(self).file_name_len
            },
    {
        self.toggle_requested = false;
        if self.state != RecorderState::Recording {
            self.state = RecorderState::Stopped;
            self.bytes_written = 0;
            self.set_status("Tap to record");
        }
    }

    /// A tap requests a start/stop.
    pub fn update(&mut self, tap: bool) -> (r: AppResult)
        ensures
            r == AppResult::Continue,
            *final(self) == (RecorderApp {
                toggle_requested: old(self).toggle_requested || tap,
                ..*old(self)
            }),
    {
        if tap {
            self.toggle_requested = true;
        }
        AppResult::Continue
    }
}

/// ASCII lower case of one byte.
pub open spec fn ascii_lower(b: u8) -> u8 {
    if 65 <= b <= 90 {
        (b + 32) as u8
    } else {
        b
    }
}

/// `/mp3/` followed by the file name in lower case, 24 bytes at most.
pub open spec fn spec_fmt_path(name: Seq<u8>) -> Seq<u8> {
    seq![47u8, 109, 112, 51, 47] + truncated(name, 19).map_values(|b: u8| ascii_lower(b))
}

/// Path shown under the status line, or `/mp3/??.pcm` when the cut name is
/// not UTF-8.
pub fn fmt_path(file_name: &str) -> (r: Vec<u8>)
    ensures
        r@ == if valid_utf8(spec_fmt_path(file_name.spec_bytes())) {
            spec_fmt_path(file_name.spec_bytes())
        } else {
            seq![47u8, 109, 112, 51, 47, 63, 63, 46, 112, 99, 109]
        },
{
    let mut out = Vec::new();
    let prefix: [u8; 5] = [47u8, 109, 112, 51, 47];
    push_all(&mut out, prefix.as_slice());
    let bytes = file_name.as_bytes();
    let ghost name = truncated(bytes@, 19);
    let mut i: usize = 0;
    while i < bytes.len() && out.len() < 24
        invariant
            i <= bytes@.len(),
            i <= 19,
            out@.len() == 5 + i,
            out@ == seq![47u8, 109, 112, 51, 47] + bytes@.subrange(0, i as int).map_values(
                |b: u8| ascii_lower(b),
            ),
        decreases bytes@.len() - i,
    {
        let b = bytes[i];
        let lower = if b >= 65 && b <= 90 {
            b + 32
        } else {
            b
        };
        out.push(lower);
        i += 1;
        assert(out@ =~= seq![47u8, 109, 112, 51, 47] + bytes@.subrange(0, i as int).map_values(
            |b: u8| ascii_lower(b),
        ));
    }
    assert(bytes@.subrange(0, i as int) =~= truncated(bytes@, 19));
    let fallback: [u8; 11] = [47u8, 109, 112, 51, 47, 63, 63, 46, 112, 99, 109];
    assert(fallback@ =~= seq![47u8, 109, 112, 51, 47, 63, 63, 46, 112, 99, 109]);
    utf8_or(out, fallback.as_slice())
}

/// `Bytes ` followed by the count in decimal.
pub fn fmt_bytes(value: u32) -> (r: Vec<u8>)
    ensures
        r@ == seq![66u8, 121, 116, 101, 115, 32] + decimal(value as nat),
{
    let mut out = Vec::new();
    let prefix: [u8; 6] = [66u8, 121, 116, 101, 115, 32];
    push_all(&mut out, prefix.as_slice());
    push_capped_decimal(&mut out, value, 10);
    proof {
        assert(crate::text::pow10(10) == 10000000000) by {
            reveal_with_fuel(crate::text::pow10, 11);
        }
        crate::text::lemma_num_digits_bound(value as nat, 10);
    }
    out
}

} // verus!
