//! Multi-tap (T9) keyboard: a 4x3 grid of keys; tapping a key repeatedly
//! cycles through its characters, which are committed after 800 ms.

use vstd::prelude::*;
use vstd::utf8::valid_utf8;
use vstd::string::StringSliceAdditionalSpecFns;
use crate::text::{prefix_str_or, lemma_ascii_valid_utf8};
use crate::ui::color::{rgb565, spec_rgb565};

verus! {

pub const KEYS_COLS: usize = 3;
pub const KEYS_ROWS: usize = 4;
pub const KEY_W: i32 = 120;
pub const KEY_H: i32 = 60;
pub const KEY_GAP: i32 = 4;
pub const KB_X: i32 = 21;
pub const KB_Y: i32 = 250;
pub const COMMIT_MS: u32 = 800;
pub const SHIFT_KEY: usize = 9;
pub const DELETE_KEY: usize = 11;

#[derive(Clone, Copy, PartialEq, Eq, Debug, Structural)]
pub enum Mode {
    Lower,
    Upper,
    Numeric,
}

/// Characters of key `idx` in lower-case mode.
pub open spec fn lower_chars(idx: int) -> Seq<u8> {
    if idx == 0 {
        seq![46u8, 44u8, 63u8, 33u8, 49u8]
    } else if idx == 1 {
        seq![97u8, 98u8, 99u8, 97u8, 97u8, 99u8, 50u8]
    } else if idx == 2 {
        seq![100u8, 101u8, 102u8, 101u8, 101u8, 101u8, 51u8]
    } else if idx == 3 {
        seq![103u8, 104u8, 105u8, 105u8, 105u8, 52u8]
    } else if idx == 4 {
        seq![106u8, 107u8, 108u8, 53u8]
    } else if idx == 5 {
        seq![109u8, 110u8, 111u8, 111u8, 54u8]
    } else if idx == 6 {
        seq![112u8, 113u8, 114u8, 115u8, 55u8]
    } else if idx == 7 {
        seq![116u8, 117u8, 118u8, 117u8, 117u8, 56u8]
    } else if idx == 8 {
        seq![119u8, 120u8, 121u8, 122u8, 57u8]
    } else if idx == 9 {
        Seq::<u8>::empty()
    } else if idx == 10 {
        seq![32u8, 48u8]
    } else {
        Seq::<u8>::empty()
    }
}

pub open spec fn upper_chars(idx: int) -> Seq<u8> {
    if idx == 0 {
        seq![46u8, 44u8, 63u8, 33u8, 49u8]
    } else if idx == 1 {
        seq![65u8, 66u8, 67u8, 50u8]
    } else if idx == 2 {
        seq![68u8, 69u8, 70u8, 51u8]
    } else if idx == 3 {
        seq![71u8, 72u8, 73u8, 52u8]
    } else if idx == 4 {
        seq![74u8, 75u8, 76u8, 53u8]
    } else if idx == 5 {
        seq![77u8, 78u8, 79u8, 54u8]
    } else if idx == 6 {
        seq![80u8, 81u8, 82u8, 83u8, 55u8]
    } else if idx == 7 {
        seq![84u8, 85u8, 86u8, 56u8]
    } else if idx == 8 {
        seq![87u8, 88u8, 89u8, 90u8, 57u8]
    } else if idx == 9 {
        Seq::<u8>::empty()
    } else if idx == 10 {
        seq![32u8, 48u8]
    } else {
        Seq::<u8>::empty()
    }
}

fn lower_chars_of(idx: usize) -> (r: Vec<u8>)
    requires
        idx < 12,
    ensures
        r@ == lower_chars(idx as int),
{
    let mut v: Vec<u8> = Vec::new();
    match idx {
        0 => {
            v.push(46);
            v.push(44);
            v.push(63);
            v.push(33);
            v.push(49);
        },
        1 => {
            v.push(97);
            v.push(98);
            v.push(99);
            v.push(97);
            v.push(97);
            v.push(99);
            v.push(50);
        },
        2 => {
            v.push(100);
            v.push(101);
            v.push(102);
            v.push(101);
            v.push(101);
            v.push(101);
            v.push(51);
        },
        3 => {
            v.push(103);
            v.push(104);
            v.push(105);
            v.push(105);
            v.push(105);
            v.push(52);
        },
        4 => {
            v.push(106);
            v.push(107);
            v.push(108);
            v.push(53);
        },
        5 => {
            v.push(109);
            v.push(110);
            v.push(111);
            v.push(111);
            v.push(54);
        },
        6 => {
            v.push(112);
            v.push(113);
            v.push(114);
            v.push(115);
            v.push(55);
        },
        7 => {
            v.push(116);
            v.push(117);
            v.push(118);
            v.push(117);
            v.push(117);
            v.push(56);
        },
        8 => {
            v.push(119);
            v.push(120);
            v.push(121);
            v.push(122);
            v.push(57);
        },
        10 => {
            v.push(32);
            v.push(48);
        },
        _ => {},
    }
    assert(v@ =~= lower_chars(idx as int));
    v
}

fn upper_chars_of(idx: usize) -> (r: Vec<u8>)
    requires
        idx < 12,
    ensures
        r@ == upper_chars(idx as int),
{
    let mut v: Vec<u8> = Vec::new();
    match idx {
        0 => {
            v.push(46);
            v.push(44);
            v.push(63);
            v.push(33);
            v.push(49);
        },
        1 => {
            v.push(65);
            v.push(66);
            v.push(67);
            v.push(50);
        },
        2 => {
            v.push(68);
            v.push(69);
            v.push(70);
            v.push(51);
        },
        3 => {
            v.push(71);
            v.push(72);
            v.push(73);
            v.push(52);
        },
        4 => {
            v.push(74);
            v.push(75);
            v.push(76);
            v.push(53);
        },
        5 => {
            v.push(77);
            v.push(78);
            v.push(79);
            v.push(54);
        },
        6 => {
            v.push(80);
            v.push(81);
            v.push(82);
            v.push(83);
            v.push(55);
        },
        7 => {
            v.push(84);
            v.push(85);
            v.push(86);
            v.push(56);
        },
        8 => {
            v.push(87);
            v.push(88);
            v.push(89);
            v.push(90);
            v.push(57);
        },
        10 => {
            v.push(32);
            v.push(48);
        },
        _ => {},
    }
    assert(v@ =~= upper_chars(idx as int));
    v
}

/// Text of the label on key `idx`: the digit, a space, then the letters
/// (punctuation on the first key); the three other keys name their action.
pub open spec fn label_text(idx: int) -> Seq<char> {
    if idx == 0 {
        "1 .,?!"@
    } else if idx == 1 {
        "2 abc"@
    } else if idx == 2 {
        "3 def"@
    } else if idx == 3 {
        "4 ghi"@
    } else if idx == 4 {
        "5 jkl"@
    } else if idx == 5 {
        "6 mno"@
    } else if idx == 6 {
        "7 pqrs"@
    } else if idx == 7 {
        "8 tuv"@
    } else if idx == 8 {
        "9 wxyz"@
    } else if idx == 9 {
        "*SHIFT"@
    } else if idx == 10 {
        "0 SPC"@
    } else {
        "<-DEL"@
    }
}

/// Label printed on key `idx`.
pub fn key_label(idx: usize) -> (s: &'static str)
    ensures
        s@ == label_text(idx as int),
{
    match idx {
        0 => "1 .,?!",
        1 => "2 abc",
        2 => "3 def",
        3 => "4 ghi",
        4 => "5 jkl",
        5 => "6 mno",
        6 => "7 pqrs",
        7 => "8 tuv",
        8 => "9 wxyz",
        9 => "*SHIFT",
        10 => "0 SPC",
        _ => "<-DEL",
    }
}

/// Characters of key `idx`: lower-case mode uses the lower-case table, the
/// other modes the upper-case one.
pub open spec fn key_chars(idx: int, mode: Mode) -> Seq<u8> {
    if mode == Mode::Lower {
        lower_chars(idx)
    } else {
        upper_chars(idx)
    }
}

/// The keys type what their labels show. On the first nine keys the n-th tap
/// in lower-case mode gives the n-th character after the label's digit and
/// space, and the last character of the cycle is the digit; on the letter
/// keys (second to ninth) upper-case mode gives the same letters capitalised,
/// then the digit, and nothing else.
pub proof fn lemma_keys_follow_labels(idx: int, n: int)
    requires
        0 <= idx <= 8,
        0 <= n < label_text(idx).len() - 2,
    ensures
        key_chars(idx, Mode::Lower)[n] == label_text(idx)[2 + n] as u8,
        key_chars(idx, Mode::Lower).last() == label_text(idx)[0] as u8,
        1 <= idx ==> key_chars(idx, Mode::Upper)[n] + 32 == label_text(idx)[2 + n] as u8,
        1 <= idx ==> key_chars(idx, Mode::Upper).len() == label_text(idx).len() - 1,
        1 <= idx ==> key_chars(idx, Mode::Upper).last() == label_text(idx)[0] as u8,
{
    reveal_strlit("1 .,?!");
    reveal_strlit("2 abc");
    reveal_strlit("3 def");
    reveal_strlit("4 ghi");
    reveal_strlit("5 jkl");
    reveal_strlit("6 mno");
    reveal_strlit("7 pqrs");
    reveal_strlit("8 tuv");
    reveal_strlit("9 wxyz");
}

/// Every key character is ASCII, and no key has more than seven.
pub proof fn lemma_key_chars_ascii(idx: int, mode: Mode)
    ensures
        forall|i: int| 0 <= i < key_chars(idx, mode).len() ==> #[trigger] key_chars(idx, mode)[i] < 128,
        key_chars(idx, mode).len() <= 7,
{
}

/// Division truncating towards zero, as Rust's `/` on signed integers does.
pub open spec fn trunc_div(a: int, b: int) -> int {
    if a >= 0 {
        a / b
    } else {
        -((-a) / b)
    }
}

/// The key under screen point (x, y), if any.
pub open spec fn key_at(x: u16, y: u16) -> Option<int> {
    let kx = trunc_div(x - KB_X, KEY_W + KEY_GAP);
    let ky = trunc_div(y - KB_Y, KEY_H + KEY_GAP);
    if kx < 0 || kx >= 3 || ky < 0 || ky >= 4 {
        None
    } else {
        Some(ky * 3 + kx)
    }
}

/// Text with a byte appended, if there is room (at most 127 bytes).
pub open spec fn add_byte(t: Seq<u8>, b: u8) -> Seq<u8> {
    if t.len() < 127 {
        t.push(b)
    } else {
        t
    }
}

/// Text without its last byte.
pub open spec fn delete_last_byte(t: Seq<u8>) -> Seq<u8> {
    if t.len() > 0 {
        t.drop_last()
    } else {
        t
    }
}

pub open spec fn next_mode(m: Mode) -> Mode {
    match m {
        Mode::Lower => Mode::Upper,
        Mode::Upper => Mode::Numeric,
        Mode::Numeric => Mode::Lower,
    }
}

/// Abstract keyboard state: the entered text and the multi-tap cycle.
pub struct T9View {
    pub text: Seq<u8>,
    pub mode: Mode,
    pub last_key: int,
    pub char_index: int,
    pub commit_timer: int,
    pub active: bool,
    pub pending: bool,
}

/// The character being cycled is accepted; the next tap starts a new one.
pub open spec fn commit_v(v: T9View) -> T9View {
    T9View { last_key: -1, char_index: 0, commit_timer: 0, pending: false, ..v }
}

/// A tap at (x, y): the new state and whether the keyboard consumed the tap.
pub open spec fn tap_v(v: T9View, x: u16, y: u16) -> (T9View, bool) {
    if !v.active {
        (v, false)
    } else {
        match key_at(x, y) {
            None => (v, false),
            Some(idx) => if idx == 9 {
                (T9View { mode: next_mode(v.mode), ..commit_v(v) }, true)
            } else if idx == 11 {
                (T9View { text: delete_last_byte(v.text), ..commit_v(v) }, true)
            } else {
                let chars = key_chars(idx, v.mode);
                if chars.len() == 0 {
                    (v, true)
                } else if v.mode == Mode::Numeric {
                    (T9View { text: add_byte(v.text, chars.last()), ..commit_v(v) }, true)
                } else if idx == v.last_key && v.pending {
                    let ci = (v.char_index + 1) % (chars.len() as int);
                    (
                        T9View {
                            char_index: ci,
                            text: add_byte(delete_last_byte(v.text), chars[ci]),
                            commit_timer: 0,
                            ..v
                        },
                        true,
                    )
                } else {
                    (
                        T9View {
                            last_key: idx,
                            text: add_byte(v.text, chars[0]),
                            pending: true,
                            ..commit_v(v)
                        },
                        true,
                    )
                }
            },
        }
    }
}

/// Time passing: a pending character is committed once 800 ms have elapsed
/// since the last tap. Returns whether the display changed.
pub open spec fn tick_v(v: T9View, dt: int) -> (T9View, bool) {
    if !v.active {
        (v, false)
    } else if v.pending {
        let t = v.commit_timer + dt;
        if t >= 800 {
            (commit_v(T9View { commit_timer: t, ..v }), true)
        } else {
            (T9View { commit_timer: t, ..v }, false)
        }
    } else {
        (v, false)
    }
}

pub struct T9Keyboard {
    pub text: [u8; 128],
    pub text_len: usize,
    pub mode: Mode,
    pub last_key: i8,
    pub char_index: usize,
    pub commit_timer: u32,
    pub active: bool,
    pub pending_char: bool,
}

impl View for T9Keyboard {
    type V = T9View;

    open spec fn view(&self) -> T9View {
        T9View {
            text: self.text@.subrange(0, self.text_len as int),
            mode: self.mode,
            last_key: self.last_key as int,
            char_index: self.char_index as int,
            commit_timer: self.commit_timer as int,
            active: self.active,
            pending: self.pending_char,
        }
    }
}

impl T9Keyboard {
    /// At most 127 bytes of text; the cycle position is within a key's characters.
    pub open spec fn wf(&self) -> bool {
        &&& self.text_len <= 127
        &&& self.char_index < 8
        &&& forall|i: int| 0 <= i < self.text_len ==> #[trigger] self.text@[i] < 128
    }

    /// The state of a new keyboard.
    pub open spec fn new_view() -> T9View {
        T9View {
            text: seq![],
            mode: Mode::Lower,
            last_key: -1,
            char_index: 0,
            commit_timer: 0,
            active: false,
            pending: false,
        }
    }

    pub fn new() -> (k: Self)
        ensures
            k.wf(),
            k@ == Self::new_view(),
            forall|i: int| 0 <= i < 128 ==> k.text@[i] == 0,
    {
        let k = T9Keyboard {
            text: [0u8; 128],
            text_len: 0,
            mode: Mode::Lower,
            last_key: -1,
            char_index: 0,
            commit_timer: 0,
            active: false,
            pending_char: false,
        };
        assert(k@.text =~= seq![]);
        k
    }

    pub fn show(&mut self)
        ensures
            final(self)@ == (T9View { active: true, ..old(self)@ }),
            final(self).text == old(self).text && final(self).text_len == old(self).text_len,
    {
        self.active = true;
    }

    /// Closes the keyboard, committing any pending character.
    pub fn dismiss(&mut self)
        ensures
            final(self)@ == (T9View { active: false, ..commit_v(old(self)@) }),
            final(self).text == old(self).text && final(self).text_len == old(self).text_len,
    {
        self.active = false;
        self.commit();
    }

    pub fn is_active(&self) -> (b: bool)
        ensures
            b == self.active,
    {
        self.active
    }

    /// The entered text (the keys only produce ASCII).
    pub fn get_text(&self) -> (s: &str)
        requires
            self.wf(),
        ensures
            s.spec_bytes() == self@.text,
    {
        proof {
            lemma_ascii_valid_utf8(self@.text);
        }
        prefix_str_or(self.text.as_slice(), self.text_len, "")
    }

    /// Background of key `idx`: lighter while its character is pending.
    pub fn key_background(&self, idx: usize) -> (c: u16)
        ensures
            c == if self.pending_char && idx as int == self.last_key {
                spec_rgb565(4, 10, 4)
            } else {
                spec_rgb565(3, 6, 3)
            },
    {
        if self.pending_char && self.last_key >= 0 && idx == self.last_key as usize {
            rgb565(4, 10, 4)
        } else {
            rgb565(3, 6, 3)
        }
    }

    /// Left edge of the text cursor: after the text, 10 pixels a character.
    pub fn cursor_x(&self) -> (x: i32)
        requires
            self.wf(),
        ensures
            x == 20 + 10 * self@.text.len(),
    {
        20 + self.text_len as i32 * 10
    }

    /// The entered text as bytes.
    pub fn text_bytes(&self) -> (r: Vec<u8>)
        requires
            self.wf(),
        ensures
            r@ == self@.text,
    {
        let mut out = Vec::new();
        let mut i: usize = 0;
        while i < self.text_len
            invariant
                i <= self.text_len <= 127,
                out@ == self.text@.subrange(0, i as int),
            decreases self.text_len - i,
        {
            out.push(self.text[i]);
            i += 1;
            assert(out@ =~= self.text@.subrange(0, i as int));
        }
        out
    }

    pub fn clear_text(&mut self)
        ensures
            final(self)@ == (T9View { text: seq![], ..old(self)@ }),
            old(self).wf() ==> final(self).wf(),
    {
        self.text_len = 0;
        assert(self@.text =~= seq![]);
    }

    fn commit(&mut self)
        ensures
            final(self)@ == commit_v(old(self)@),
            final(self).text == old(self).text && final(self).text_len == old(self).text_len,
    {
        self.last_key = -1;
        self.char_index = 0;
        self.commit_timer = 0;
        self.pending_char = false;
    }

    fn add_char(&mut self, b: u8)
        requires
            old(self).wf(),
            b < 128,
        ensures
            final(self).wf(),
            final(self)@ == (T9View { text: add_byte(old(self)@.text, b), ..old(self)@ }),
    {
        if self.text_len < 127 {
            self.text[self.text_len] = b;
            self.text_len = self.text_len + 1;
        }
        assert(self@.text =~= add_byte(old(self)@.text, b));
    }

    fn delete_last(&mut self)
        requires
            old(self).wf(),
        ensures
            final(self).wf(),
            final(self)@ == (T9View { text: delete_last_byte(old(self)@.text), ..old(self)@ }),
    {
        if self.text_len > 0 {
            self.text_len = self.text_len - 1;
        }
        assert(self@.text =~= delete_last_byte(old(self)@.text));
    }

    /// Call every frame with the elapsed milliseconds; returns whether the
    /// display needs to be redrawn.
    pub fn update(&mut self, dt_ms: u32) -> (changed: bool)
        requires
            old(self).active && old(self).pending_char ==> old(self).commit_timer + dt_ms <= u32::MAX,
        ensures
            (final(self)@, changed) == tick_v(old(self)@, dt_ms as int),
            final(self).text == old(self).text && final(self).text_len == old(self).text_len,
    {
        if !self.active {
            return false;
        }
        if self.pending_char {
            self.commit_timer = self.commit_timer + dt_ms;
            if self.commit_timer >= COMMIT_MS {
                self.commit();
                return true;
            }
        }
        false
    }

    /// Signed division truncating towards zero.
    fn trunc_div_i32(a: i32, b: i32) -> (r: i32)
        requires
            b > 0,
            -100000 <= a <= 100000,
        ensures
            r == trunc_div(a as int, b as int),
    {
        if a >= 0 {
            a / b
        } else {
            -((-a) / b)
        }
    }

    /// The key under (x, y), if any.
    pub fn key_index(x: u16, y: u16) -> (r: Option<usize>)
        ensures
            match key_at(x, y) {
                Some(i) => r == Some(i as usize) && i < 12,
                None => r is None,
            },
    {
        let kx = Self::trunc_div_i32(x as i32 - KB_X, KEY_W + KEY_GAP);
        let ky = Self::trunc_div_i32(y as i32 - KB_Y, KEY_H + KEY_GAP);
        if kx < 0 || kx >= KEYS_COLS as i32 || ky < 0 || ky >= KEYS_ROWS as i32 {
            return None;
        }
        Some((ky * 3 + kx) as usize)
    }

    /// Handles a tap at screen coordinates; returns whether the keyboard used it.
    pub fn handle_tap(&mut self, x: u16, y: u16) -> (consumed: bool)
        requires
            old(self).wf(),
        ensures
            final(self).wf(),
            (final(self)@, consumed) == tap_v(old(self)@, x, y),
    {
        if !self.active {
            return false;
        }
        let idx = match Self::key_index(x, y) {
            Some(i) => i,
            None => {
                return false;
            },
        };
        if idx == SHIFT_KEY {
            self.commit();
            self.mode = match self.mode {
                Mode::Lower => Mode::Upper,
                Mode::Upper => Mode::Numeric,
                Mode::Numeric => Mode::Lower,
            };
            return true;
        }
        if idx == DELETE_KEY {
            self.commit();
            self.delete_last();
            return true;
        }
        let chars = match self.mode {
            Mode::Lower => lower_chars_of(idx),
            _ => upper_chars_of(idx),
        };
        proof {
            lemma_key_chars_ascii(idx as int, self.mode);
        }
        if chars.len() == 0 {
            return true;
        }
        if self.mode == Mode::Numeric {
            self.commit();
            self.add_char(chars[chars.len() - 1]);
        } else if idx as i8 == self.last_key && self.pending_char {
            self.char_index = (self.char_index + 1) % chars.len();
            self.delete_last();
            self.add_char(chars[self.char_index]);
            self.commit_timer = 0;
        } else {
            self.commit();
            self.last_key = idx as i8;
            self.char_index = 0;
            self.add_char(chars[0]);
            self.pending_char = true;
            self.commit_timer = 0;
        }
        true
    }

    /// Label of the current mode.
    pub fn mode_label(&self) -> (s: &'static str)
        ensures
            s@ == match self.mode {
                Mode::Lower => "abc"@,
                Mode::Upper => "ABC"@,
                Mode::Numeric => "123"@,
            },
    {
        match self.mode {
            Mode::Lower => "abc",
            Mode::Upper => "ABC",
            Mode::Numeric => "123",
        }
    }
}

/// Multi-tap: tapping a letter key types its first character; tapping it
/// again before the character is committed replaces that character with the
/// key's next one, so the text keeps its length.
pub proof fn lemma_double_tap_cycles(v: T9View, x: u16, y: u16)
    requires
        v.active,
        v.mode != Mode::Numeric,
        v.text.len() < 127,
        key_at(x, y) is Some,
        key_at(x, y)->0 != 9 && key_at(x, y)->0 != 11,
        key_chars(key_at(x, y)->0, v.mode).len() > 0,
        !v.pending || v.last_key != key_at(x, y)->0,
    ensures
        ({
            let chars = key_chars(key_at(x, y)->0, v.mode);
            let v1 = tap_v(v, x, y).0;
            let v2 = tap_v(v1, x, y).0;
            &&& v1.text == v.text.push(chars[0])
            &&& v2.text == v.text.push(chars[1int % chars.len() as int])
            &&& v2.text.len() == v1.text.len()
        }),
{
    let chars = key_chars(key_at(x, y)->0, v.mode);
    let v1 = tap_v(v, x, y).0;
    assert(v1.text.drop_last() =~= v.text);
}

} // verus!
