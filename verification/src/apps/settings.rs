//! Settings screen: WiFi SSID and password entered with the T9 keyboard,
//! and a connect button.

use vstd::prelude::*;
use vstd::string::StringSliceAdditionalSpecFns;
use crate::peripherals::wifi::{WifiConfig, WifiState, truncated};
use crate::ui::t9_keyboard::{T9Keyboard, T9View, tap_v, commit_v};
use crate::ui::color::{rgb565, spec_rgb565, BLUE, GREEN, RED, YELLOW};

verus! {

#[derive(Clone, Copy, PartialEq, Eq, Debug, Structural)]
pub enum SettingsField {
    Ssid,
    Password,
    Connect,
}

/// Which part of the screen a tap at height `y` selects.
pub open spec fn field_at(y: u16) -> Option<SettingsField> {
    if 60 <= y < 115 {
        Some(SettingsField::Ssid)
    } else if 120 <= y < 175 {
        Some(SettingsField::Password)
    } else if 185 <= y < 230 {
        Some(SettingsField::Connect)
    } else {
        None
    }
}

pub struct SettingsApp {
    pub wifi_config: WifiConfig,
    pub wifi_state: WifiState,
    pub keyboard: T9Keyboard,
    pub active_field: SettingsField,
    pub editing: bool,
}

impl SettingsApp {
    /// Background of a field's box: lighter while that field is being edited.
    pub fn field_background(&self, f: SettingsField) -> (c: u16)
        ensures
            c == if self.active_field == f && self.editing {
                spec_rgb565(3, 6, 3)
            } else {
                spec_rgb565(2, 4, 2)
            },
    {
        if self.active_field == f && self.editing {
            rgb565(3, 6, 3)
        } else {
            rgb565(2, 4, 2)
        }
    }

    /// Colour and caption of the connect button for the Wi-Fi state.
    pub fn connect_button(&self) -> (r: (u16, &'static str))
        ensures
            self.wifi_state == WifiState::Disconnected ==> r.0 == BLUE && r.1@ == "CONNECT"@,
            self.wifi_state == WifiState::Connecting ==> r.0 == YELLOW && r.1@ == "CONNECTING..."@,
            self.wifi_state == WifiState::Connected ==> r.0 == GREEN && r.1@ == "CONNECTED"@,
            self.wifi_state == WifiState::Error ==> r.0 == RED && r.1@ == "RETRY"@,
    {
        match self.wifi_state {
            WifiState::Disconnected => (BLUE, "CONNECT"),
            WifiState::Connecting => (YELLOW, "CONNECTING..."),
            WifiState::Connected => (GREEN, "CONNECTED"),
            WifiState::Error => (RED, "RETRY"),
        }
    }

    pub open spec fn wf(&self) -> bool {
        self.wifi_config.wf() && self.keyboard.wf()
    }

    pub fn new() -> (app: Self)
        ensures
            app.wf(),
            app.wifi_config.ssid_len == 0 && app.wifi_config.pass_len == 0,
            forall|i: int| 0 <= i < 32 ==> app.wifi_config.ssid@[i] == 0,
            forall|i: int| 0 <= i < 64 ==> app.wifi_config.password@[i] == 0,
            forall|i: int| 0 <= i < 128 ==> app.keyboard.text@[i] == 0,
            app.wifi_state == WifiState::Disconnected,
            app.keyboard@ == T9Keyboard::new_view(),
            app.active_field == SettingsField::Ssid,
            !app.editing,
    {
        SettingsApp {
            wifi_config: WifiConfig::new(),
            wifi_state: WifiState::Disconnected,
            keyboard: T9Keyboard::new(),
            active_field: SettingsField::Ssid,
            editing: false,
        }
    }

    /// Handles a tap; returns whether it was used.
    ///
    /// With the keyboard open, a key tap edits the selected field's text (the
    /// field is updated from the keyboard text at once), and a tap above the
    /// keyboard (y < 200) closes it. Otherwise a tap on the SSID or password
    /// field opens the keyboard with empty text for that field, and a tap on
    /// the button starts connecting unless already connecting or connected.
    pub fn handle_tap(&mut self, x: u16, y: u16) -> (consumed: bool)
        requires
            old(self).wf(),
        ensures
            final(self).wf(),
            ({
                let (kv, key_used) = tap_v(old(self).keyboard@, x, y);
                if old(self).keyboard@.active && key_used {
                    &&& consumed
                    &&& final(self).keyboard@ == kv
                    &&& final(self).active_field == old(self).active_field
                    &&& final(self).editing == old(self).editing
                    &&& final(self).wifi_state == old(self).wifi_state
                    &&& old(self).active_field == SettingsField::Ssid ==> final(self).wifi_config.ssid_bytes()
                        == truncated(kv.text, 32) && final(self).wifi_config.password_bytes()
                        == old(self).wifi_config.password_bytes()
                    &&& old(self).active_field == SettingsField::Password ==> final(self).wifi_config.password_bytes()
                        == truncated(kv.text, 64) && final(self).wifi_config.ssid_bytes()
                        == old(self).wifi_config.ssid_bytes()
                    &&& old(self).active_field == SettingsField::Connect ==> final(self).wifi_config
                        == old(self).wifi_config
                } else if old(self).keyboard@.active && y < 200 {
                    &&& consumed
                    &&& final(self).keyboard@ == (T9View { active: false, ..commit_v(old(self).keyboard@) })
                    &&& !final(self).editing
                    &&& final(self).active_field == old(self).active_field
                    &&& final(self).wifi_config == old(self).wifi_config
                    &&& final(self).wifi_state == old(self).wifi_state
                } else {
                    match field_at(y) {
                        Some(SettingsField::Connect) => {
                            &&& consumed
                            &&& final(self).wifi_state == if old(self).wifi_state == WifiState::Disconnected
                                || old(self).wifi_state == WifiState::Error {
                                WifiState::Connecting
                            } else {
                                old(self).wifi_state
                            }
                            &&& final(self).keyboard@ == old(self).keyboard@
                            &&& final(self).active_field == old(self).active_field
                            &&& final(self).editing == old(self).editing
                            &&& final(self).wifi_config == old(self).wifi_config
                        },
                        Some(f) => {
                            &&& consumed
                            &&& final(self).active_field == f
                            &&& final(self).keyboard@ == (T9View {
                                text: seq![],
                                active: true,
                                ..old(self).keyboard@
                            })
                            &&& final(self).editing
                            &&& final(self).wifi_config == old(self).wifi_config
                            &&& final(self).wifi_state == old(self).wifi_state
                        },
                        None => {
                            &&& !consumed
                            &&& final(self).keyboard@ == old(self).keyboard@
                            &&& final(self).active_field == old(self).active_field
                            &&& final(self).editing == old(self).editing
                            &&& final(self).wifi_config == old(self).wifi_config
                            &&& final(self).wifi_state == old(self).wifi_state
                        },
                    }
                }
            }),
    {
        if self.keyboard.is_active() {
            if self.keyboard.handle_tap(x, y) {
                match self.active_field {
                    SettingsField::Ssid => {
                        let t = self.keyboard.get_text();
                        self.wifi_config.set_ssid(t);
                    },
                    SettingsField::Password => {
                        let t = self.keyboard.get_text();
                        self.wifi_config.set_password(t);
                    },
                    _ => {},
                }
                return true;
            }
            if y < 200 {
                self.keyboard.dismiss();
                self.editing = false;
                return true;
            }
        }
        if y >= 60 && y < 115 {
            self.active_field = SettingsField::Ssid;
            self.keyboard.clear_text();
            self.keyboard.show();
            self.editing = true;
            return true;
        }
        if y >= 120 && y < 175 {
            self.active_field = SettingsField::Password;
            self.keyboard.clear_text();
            self.keyboard.show();
            self.editing = true;
            return true;
        }
        if y >= 185 && y < 230 {
            if self.wifi_state == WifiState::Disconnected || self.wifi_state == WifiState::Error {
                self.wifi_state = WifiState::Connecting;
            }
            return true;
        }
        false
    }

    /// Per-frame update of the keyboard's commit timer.
    pub fn update(&mut self, dt_ms: u32)
        requires
            old(self).keyboard.active && old(self).keyboard.pending_char ==> old(self).keyboard.commit_timer
                + dt_ms <= u32::MAX,
        ensures
            final(self).keyboard@ == crate::ui::t9_keyboard::tick_v(old(self).keyboard@, dt_ms as int).0,
            final(self).keyboard.text == old(self).keyboard.text,
            final(self).keyboard.text_len == old(self).keyboard.text_len,
            final(self).wifi_config == old(self).wifi_config,
            final(self).wifi_state == old(self).wifi_state,
            final(self).active_field == old(self).active_field,
            final(self).editing == old(self).editing,
    {
        self.keyboard.update(dt_ms);
    }
}

} // verus!
