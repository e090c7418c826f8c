//! Smart-home controller: a list of configurable buttons, each bound to an
//! HTTP request. Taps select the next button; the main loop sends the
//! request and reports the reply.

use vstd::prelude::*;
use vstd::utf8::valid_utf8;
use vstd::string::StringSliceAdditionalSpecFns;
use crate::apps::AppResult;
use crate::peripherals::touch::SwipeDirection;
use crate::peripherals::wifi::{copy_prefix, truncated};
use crate::text::prefix_str_or;

verus! {

pub const BTN_H: i32 = 55;
pub const BTN_GAP: i32 = 6;
pub const BTN_MARGIN: i32 = 15;
pub const LIST_TOP: i32 = 55;
pub const FOOTER_H: i32 = 36;
pub const MAX_BUTTONS: usize = 8;
pub const SCREEN_H: i32 = 448;

#[derive(Clone, Copy, PartialEq, Eq, Debug, Structural)]
pub enum HttpMethod {
    Get,
    Post,
}

#[derive(Clone, Copy, PartialEq, Eq, Debug, Structural)]
pub enum ButtonState {
    Idle,
    Sending,
    Success,
    Error,
}

/// A named button bound to a URL and a method, with the last reply.
#[derive(Clone, Copy)]
pub struct ApiButton {
    pub name: [u8; 16],
    pub name_len: usize,
    pub url: [u8; 96],
    pub url_len: usize,
    pub method: HttpMethod,
    pub state: ButtonState,
    pub last_response: [u8; 32],
    pub response_len: usize,
}

impl ApiButton {
    pub open spec fn name_bytes(&self) -> Seq<u8> {
        self.name@.subrange(0, self.name_len as int)
    }

    pub open spec fn url_bytes(&self) -> Seq<u8> {
        self.url@.subrange(0, self.url_len as int)
    }

    pub open spec fn response_bytes(&self) -> Seq<u8> {
        self.last_response@.subrange(0, self.response_len as int)
    }

    pub open spec fn wf(&self) -> bool {
        self.name_len <= 16 && self.url_len <= 96 && self.response_len <= 32
    }

    /// An unused button.
    pub fn empty() -> (b: Self)
        ensures
            b.wf(),
            b.name_len == 0 && b.url_len == 0 && b.response_len == 0,
            b.method == HttpMethod::Get,
            b.state == ButtonState::Idle,
            forall|i: int| 0 <= i < 16 ==> b.name@[i] == 0,
            forall|i: int| 0 <= i < 96 ==> b.url@[i] == 0,
            forall|i: int| 0 <= i < 32 ==> b.last_response@[i] == 0,
    {
        ApiButton {
            name: [0u8; 16],
            name_len: 0,
            url: [0u8; 96],
            url_len: 0,
            method: HttpMethod::Get,
            state: ButtonState::Idle,
            last_response: [0u8; 32],
            response_len: 0,
        }
    }

    /// A button named `name` (cut to 16 bytes) for `url` (cut to 96 bytes).
    pub fn new(name: &str, url: &str, method: HttpMethod) -> (b: Self)
        ensures
            b.wf(),
            b.name_bytes() == truncated(name.spec_bytes(), 16),
            b.url_bytes() == truncated(url.spec_bytes(), 96),
            b.method == method,
            b.state == ButtonState::Idle,
            b.response_len == 0,
            forall|i: int| b.name_len <= i < 16 ==> #[trigger] b.name@[i] == 0,
            forall|i: int| b.url_len <= i < 96 ==> #[trigger] b.url@[i] == 0,
            forall|i: int| 0 <= i < 32 ==> #[trigger] b.last_response@[i] == 0,
    {
        let mut btn = Self::empty();
        let nb = name.as_bytes();
        let nl = if nb.len() < 16 {
            nb.len()
        } else {
            16
        };
        copy_prefix(&mut btn.name, nb, nl);
        btn.name_len = nl;
        let ub = url.as_bytes();
        let ul = if ub.len() < 96 {
            ub.len()
        } else {
            96
        };
        copy_prefix(&mut btn.url, ub, ul);
        btn.url_len = ul;
        btn.method = method;
        btn
    }

    /// The name as text (`?` when not UTF-8).
    pub fn name_str(&self) -> (r: &str)
        requires
            self.wf(),
        ensures
            valid_utf8(self.name_bytes()) ==> r.spec_bytes() == self.name_bytes(),
            !valid_utf8(self.name_bytes()) ==> r == "?",
    {
        prefix_str_or(self.name.as_slice(), self.name_len, "?")
    }

    /// The reply text, or a status word when there is none yet.
    pub fn response_str(&self) -> (r: &str)
        requires
            self.wf(),
        ensures
            self.response_len > 0 && valid_utf8(self.response_bytes()) ==> r.spec_bytes()
                == self.response_bytes(),
            self.response_len > 0 && !valid_utf8(self.response_bytes()) ==> r == "",
            self.response_len == 0 ==> r == match self.state {
                ButtonState::Idle => "",
                ButtonState::Sending => "...",
                ButtonState::Success => "OK",
                ButtonState::Error => "ERR",
            },
    {
        if self.response_len > 0 {
            prefix_str_or(self.last_response.as_slice(), self.response_len, "")
        } else {
            match self.state {
                ButtonState::Idle => "",
                ButtonState::Sending => "...",
                ButtonState::Success => "OK",
                ButtonState::Error => "ERR",
            }
        }
    }
}

/// Largest scroll offset for `count` buttons.
pub open spec fn max_scroll(count: int) -> int {
    let m = count * (BTN_H + BTN_GAP) - (SCREEN_H - LIST_TOP - FOOTER_H);
    if m < 0 {
        0
    } else {
        m
    }
}

/// A fresh button named `name` for `url`.
pub open spec fn preset(b: ApiButton, name: &str, url: &str, method: HttpMethod) -> bool {
    &&& b.name_bytes() == truncated(name.spec_bytes(), 16)
    &&& b.url_bytes() == truncated(url.spec_bytes(), 96)
    &&& b.method == method
    &&& b.state == ButtonState::Idle
    &&& b.response_len == 0
}

pub struct SmartHomeApp {
    pub buttons: [ApiButton; MAX_BUTTONS],
    pub count: usize,
    pub scroll_offset: i32,
    /// The button picked by the last tap, waiting to be sent.
    pub selected: Option<usize>,
}

impl SmartHomeApp {
    pub open spec fn wf(&self) -> bool {
        &&& self.count <= MAX_BUTTONS
        &&& forall|i: int| 0 <= i < MAX_BUTTONS ==> (#[trigger] self.buttons@[i]).wf()
    }

    /// The app with its six example buttons.
    pub fn new() -> (app: Self)
        ensures
            app.wf(),
            app.count == 6,
            app.scroll_offset == 0,
            app.selected is None,
            preset(app.buttons@[0], "Salon Light", "http://192.168.1.10/api/toggle/1", HttpMethod::Get),
            preset(app.buttons@[1], "Chambre", "http://192.168.1.10/api/toggle/2", HttpMethod::Get),
            preset(app.buttons@[2], "Porte", "http://192.168.1.10/api/door/lock", HttpMethod::Post),
            preset(app.buttons@[3], "Temperature", "http://192.168.1.10/api/temp", HttpMethod::Get),
            preset(app.buttons@[4], "TV", "http://192.168.1.10/api/tv/toggle", HttpMethod::Get),
            preset(app.buttons@[5], "Custom API", "http://example.com/api", HttpMethod::Get),
            app.buttons@[6].name_len == 0 && app.buttons@[6].url_len == 0,
            app.buttons@[7].name_len == 0 && app.buttons@[7].url_len == 0,
    {
        let mut app = SmartHomeApp {
            buttons: [
                ApiButton::empty(),
                ApiButton::empty(),
                ApiButton::empty(),
                ApiButton::empty(),
                ApiButton::empty(),
                ApiButton::empty(),
                ApiButton::empty(),
                ApiButton::empty(),
            ],
            count: 0,
            scroll_offset: 0,
            selected: None,
        };
        app.add_button("Salon Light", "http://192.168.1.10/api/toggle/1", HttpMethod::Get);
        app.add_button("Chambre", "http://192.168.1.10/api/toggle/2", HttpMethod::Get);
        app.add_button("Porte", "http://192.168.1.10/api/door/lock", HttpMethod::Post);
        app.add_button("Temperature", "http://192.168.1.10/api/temp", HttpMethod::Get);
        app.add_button("TV", "http://192.168.1.10/api/tv/toggle", HttpMethod::Get);
        app.add_button("Custom API", "http://example.com/api", HttpMethod::Get);
        app
    }

    /// Appends a button if there is room for it (eight at most).
    pub fn add_button(&mut self, name: &str, url: &str, method: HttpMethod)
        requires
            old(self).wf(),
        ensures
            final(self).wf(),
            old(self).count < MAX_BUTTONS ==> {
                &&& final(self).count == old(self).count + 1
                &&& final(self).buttons@[old(self).count as int].name_bytes() == truncated(name.spec_bytes(), 16)
                &&& final(self).buttons@[old(self).count as int].url_bytes() == truncated(url.spec_bytes(), 96)
                &&& final(self).buttons@[old(self).count as int].method == method
                &&& final(self).buttons@[old(self).count as int].state == ButtonState::Idle
                &&& final(self).buttons@[old(self).count as int].response_len == 0
                &&& forall|i: int| 0 <= i < MAX_BUTTONS && i != old(self).count ==> #[trigger] final(self).buttons@[i] == old(self).buttons@[i]
            },
            old(self).count >= MAX_BUTTONS ==> final(self).buttons == old(self).buttons && final(self).count == old(self).count,
            final(self).scroll_offset == old(self).scroll_offset,
            final(self).selected == old(self).selected,
    {
        if self.count < MAX_BUTTONS {
            self.buttons[self.count] = ApiButton::new(name, url, method);
            self.count = self.count + 1;
        }
    }

    /// Records the reply to button `idx`'s request (text cut to 32 bytes).
    pub fn set_response(&mut self, idx: usize, response: &str, success: bool)
        requires
            old(self).wf(),
        ensures
            final(self).wf(),
            final(self).count == old(self).count,
            final(self).scroll_offset == old(self).scroll_offset,
            final(self).selected == old(self).selected,
            idx < old(self).count ==> {
                &&& final(self).buttons@[idx as int].state == if success {
                    ButtonState::Success
                } else {
                    ButtonState::Error
                }
                &&& final(self).buttons@[idx as int].response_bytes() == truncated(response.spec_bytes(), 32)
                &&& forall|i: int| final(self).buttons@[idx as int].response_len <= i < 32
                    ==> #[trigger] final(self).buttons@[idx as int].last_response@[i]
                    == old(self).buttons@[idx as int].last_response@[i]
                &&& final(self).buttons@[idx as int].name == old(self).buttons@[idx as int].name
                &&& final(self).buttons@[idx as int].name_len == old(self).buttons@[idx as int].name_len
                &&& final(self).buttons@[idx as int].url == old(self).buttons@[idx as int].url
                &&& final(self).buttons@[idx as int].url_len == old(self).buttons@[idx as int].url_len
                &&& final(self).buttons@[idx as int].method == old(self).buttons@[idx as int].method
                &&& forall|i: int| 0 <= i < MAX_BUTTONS && i != idx ==> #[trigger] final(self).buttons@[i] == old(self).buttons@[i]
            },
            idx >= old(self).count ==> final(self).buttons == old(self).buttons,
    {
        if idx < self.count {
            let mut b = self.buttons[idx];
            b.state = if success {
                ButtonState::Success
            } else {
                ButtonState::Error
            };
            let bytes = response.as_bytes();
            let len = if bytes.len() < 32 {
                bytes.len()
            } else {
                32
            };
            copy_prefix(&mut b.last_response, bytes, len);
            b.response_len = len;
            self.buttons[idx] = b;
        }
    }

    /// Takes the pending selection: if it names a button, that button goes to
    /// Sending and its index and URL are returned (the URL is empty if not UTF-8).
    pub fn get_pending_request(&mut self) -> (r: Option<(usize, &str)>)
        requires
            old(self).wf(),
        ensures
            final(self).wf(),
            final(self).selected is None,
            final(self).count == old(self).count,
            final(self).scroll_offset == old(self).scroll_offset,
            match old(self).selected {
                Some(idx) if idx < old(self).count => {
                    &&& r is Some
                    &&& r.unwrap().0 == idx
                    &&& valid_utf8(old(self).buttons@[idx as int].url_bytes()) ==> r.unwrap().1.spec_bytes()
                        == old(self).buttons@[idx as int].url_bytes()
                    &&& !valid_utf8(old(self).buttons@[idx as int].url_bytes()) ==> r.unwrap().1 == ""
                    &&& final(self).buttons@[idx as int] == (ApiButton {
                        state: ButtonState::Sending,
                        ..old(self).buttons@[idx as int]
                    })
                    &&& forall|i: int| 0 <= i < MAX_BUTTONS && i != idx ==> #[trigger] final(self).buttons@[i] == old(self).buttons@[i]
                },
                _ => r is None && final(self).buttons == old(self).buttons,
            },
    {
        if let Some(idx) = self.selected.take() {
            if idx < self.count {
                let mut b = self.buttons[idx];
                b.state = ButtonState::Sending;
                self.buttons[idx] = b;
                let url = prefix_str_or(self.buttons[idx].url.as_slice(), self.buttons[idx].url_len, "");
                return Some((idx, url));
            }
        }
        None
    }

    /// Entering the screen: scrolled to the top, nothing selected, every
    /// button idle with no reply.
    pub fn setup(&mut self)
        requires
            old(self).wf(),
        ensures
            final(self).wf(),
            final(self).scroll_offset == 0,
            final(self).selected is None,
            final(self).count == old(self).count,
            forall|i: int| 0 <= i < old(self).count ==> #[trigger] final(self).buttons@[i] == (ApiButton {
                state: ButtonState::Idle,
                response_len: 0,
                ..old(self).buttons@[i]
            }),
            forall|i: int| old(self).count <= i < MAX_BUTTONS ==> #[trigger] final(self).buttons@[i] == old(self).buttons@[i],
    {
        self.scroll_offset = 0;
        self.selected = None;
        let mut i: usize = 0;
        while i < self.count
            invariant
                i <= self.count <= MAX_BUTTONS,
                self.count == old(self).count,
                self.scroll_offset == 0,
                self.selected is None,
                forall|j: int| 0 <= j < MAX_BUTTONS ==> (#[trigger] self.buttons@[j]).wf(),
                forall|j: int| 0 <= j < i ==> #[trigger] self.buttons@[j] == (ApiButton {
                    state: ButtonState::Idle,
                    response_len: 0,
                    ..old(self).buttons@[j]
                }),
                forall|j: int| i <= j < MAX_BUTTONS ==> #[trigger] self.buttons@[j] == old(self).buttons@[j],
            decreases self.count - i,
        {
            let mut b = self.buttons[i];
            b.state = ButtonState::Idle;
            b.response_len = 0;
            self.buttons[i] = b;
            i += 1;
        }
    }

    /// Swipe up/down scrolls by 80 px within the list; a tap selects the
    /// next button (the first one when nothing was selected).
    pub fn update(&mut self, swipe: Option<SwipeDirection>, tap: bool) -> (r: AppResult)
        requires
            old(self).wf(),
            old(self).scroll_offset + 80 <= i32::MAX,
            old(self).scroll_offset - 80 >= i32::MIN,
            tap && old(self).count > 0 ==> match old(self).selected {
                Some(i) => i < usize::MAX,
                None => true,
            },
        ensures
            r == AppResult::Continue,
            final(self).wf(),
            final(self).buttons == old(self).buttons,
            final(self).count == old(self).count,
            final(self).scroll_offset == match swipe {
                Some(SwipeDirection::Up) => {
                    let s = old(self).scroll_offset + 80;
                    if s < max_scroll(old(self).count as int) {
                        s
                    } else {
                        max_scroll(old(self).count as int)
                    }
                },
                Some(SwipeDirection::Down) => {
                    let s = old(self).scroll_offset - 80;
                    if s > 0 {
                        s
                    } else {
                        0
                    }
                },
                _ => old(self).scroll_offset as int,
            },
            final(self).selected == if tap && old(self).count > 0 {
                match old(self).selected {
                    Some(i) => Some(((i + 1) % (old(self).count as int)) as usize),
                    None => Some(0usize),
                }
            } else {
                old(self).selected
            },
    {
        match swipe {
            Some(SwipeDirection::Up) => {
                let visible_h = SCREEN_H - LIST_TOP - FOOTER_H;
                let c: i32 = self.count as i32;
                assert(0 <= c <= 8);
                let total = c * 61 - visible_h;
                let max = if total < 0 {
                    0
                } else {
                    total
                };
                let s = self.scroll_offset + 80;
                self.scroll_offset = if s < max {
                    s
                } else {
                    max
                };
            },
            Some(SwipeDirection::Down) => {
                let s = self.scroll_offset - 80;
                self.scroll_offset = if s > 0 {
                    s
                } else {
                    0
                };
            },
            _ => {},
        }
        if tap {
            if self.count > 0 {
                let next = match self.selected {
                    Some(i) => (i + 1) % self.count,
                    None => 0,
                };
                self.selected = Some(next);
            }
        }
        AppResult::Continue
    }
}

} // verus!
