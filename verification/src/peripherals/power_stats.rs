//! Power consumption estimator and runtime budget tracker.
//!
//! The mA figures are rough typical currents at 3.7 V, meant as a live
//! diagnostic read-out, not as telemetry.

use vstd::prelude::*;

verus! {

/// Display power state.
#[derive(Clone, Copy, Debug, PartialEq, Eq)]
pub enum DisplayState {
    Off,
    Aod,
    Dim,
    Bright,
}

/// WiFi radio mode.
#[derive(Clone, Copy, Debug, PartialEq, Eq)]
pub enum WifiMode {
    Off,
    PowerSave,
    Active,
}

/// What is currently powered, updated in place from the main loop.
#[derive(Clone, Copy, Debug, Default)]
pub struct PowerStats {
    pub display: Option<DisplayState>,
    pub wifi: Option<WifiMode>,
    pub ble_on: bool,
    pub imu_on: bool,
    pub audio_on: bool,
    pub sd_on: bool,
    pub cpu_mhz: u16,
    pub brightness: u8,
    pub battery_mv: u16,
    pub battery_pct: u8,
    pub charging: bool,
}

pub open spec fn spec_base_ma(cpu_mhz: u16) -> u16 {
    if cpu_mhz == 240 {
        55
    } else if cpu_mhz == 160 {
        38
    } else if cpu_mhz == 80 {
        22
    } else if cpu_mhz == 40 {
        14
    } else {
        38
    }
}

pub open spec fn spec_display_ma(display: Option<DisplayState>, brightness: u8) -> u16 {
    match display {
        None => 0,
        Some(DisplayState::Off) => 0,
        Some(DisplayState::Aod) => 8,
        Some(DisplayState::Dim) => 25,
        Some(DisplayState::Bright) => (5 + brightness * 75 / 255) as u16,
    }
}

pub open spec fn spec_wifi_ma(wifi: Option<WifiMode>) -> u16 {
    match wifi {
        None => 0,
        Some(WifiMode::Off) => 0,
        Some(WifiMode::PowerSave) => 20,
        Some(WifiMode::Active) => 90,
    }
}

pub open spec fn spec_flag_ma(on: bool, ma: u16) -> u16 {
    if on {
        ma
    } else {
        0
    }
}

impl PowerStats {
    /// Total estimated draw in mA.
    pub open spec fn spec_total_ma(&self) -> int {
        spec_base_ma(self.cpu_mhz) + spec_display_ma(self.display, self.brightness) + spec_wifi_ma(
            self.wifi,
        ) + spec_flag_ma(self.ble_on, 15) + spec_flag_ma(self.imu_on, 2) + spec_flag_ma(
            self.audio_on,
            25,
        ) + spec_flag_ma(self.sd_on, 30)
    }

    /// Hours that `mah` milliamp-hours last at the current draw, capped at 999.
    pub open spec fn spec_hours(&self, mah: int) -> int {
        let h = mah / self.spec_total_ma();
        if h < 999 {
            h
        } else {
            999
        }
    }

    pub fn new() -> (r: Self)
        ensures
            r.display is None,
            r.wifi is None,
            !r.ble_on && !r.imu_on && !r.audio_on && !r.sd_on && !r.charging,
            r.cpu_mhz == 160,
            r.brightness == 0xA0,
            r.battery_mv == 0,
            r.battery_pct == 0,
    {
        PowerStats {
            display: None,
            wifi: None,
            ble_on: false,
            imu_on: false,
            audio_on: false,
            sd_on: false,
            cpu_mhz: 160,
            brightness: 0xA0,
            battery_mv: 0,
            battery_pct: 0,
            charging: false,
        }
    }

    /// Baseline MCU + PSRAM + PMIC draw, by CPU clock.
    pub fn base_ma(&self) -> (r: u16)
        ensures
            r == spec_base_ma(self.cpu_mhz),
    {
        match self.cpu_mhz {
            240 => 55,
            160 => 38,
            80 => 22,
            40 => 14,
            _ => 38,
        }
    }

    /// Panel draw; in bright mode it grows linearly with brightness from 5 to 80 mA.
    pub fn display_ma(&self) -> (r: u16)
        ensures
            r == spec_display_ma(self.display, self.brightness),
            r <= 80,
    {
        match self.display {
            None => 0,
            Some(DisplayState::Off) => 0,
            Some(DisplayState::Aod) => 8,
            Some(DisplayState::Dim) => 25,
            Some(DisplayState::Bright) => {
                let b = self.brightness as u16;
                assert(b * 75 / 255 <= 75) by (nonlinear_arith)
                    requires
                        b <= 255,
                ;
                5 + (b * 75 / 255)
            },
        }
    }

    pub fn wifi_ma(&self) -> (r: u16)
        ensures
            r == spec_wifi_ma(self.wifi),
    {
        match self.wifi {
            None => 0,
            Some(WifiMode::Off) => 0,
            Some(WifiMode::PowerSave) => 20,
            Some(WifiMode::Active) => 90,
        }
    }

    pub fn ble_ma(&self) -> (r: u16)
        ensures
            r == spec_flag_ma(self.ble_on, 15),
    {
        if self.ble_on {
            15
        } else {
            0
        }
    }

    pub fn imu_ma(&self) -> (r: u16)
        ensures
            r == spec_flag_ma(self.imu_on, 2),
    {
        if self.imu_on {
            2
        } else {
            0
        }
    }

    pub fn audio_ma(&self) -> (r: u16)
        ensures
            r == spec_flag_ma(self.audio_on, 25),
    {
        if self.audio_on {
            25
        } else {
            0
        }
    }

    pub fn sd_ma(&self) -> (r: u16)
        ensures
            r == spec_flag_ma(self.sd_on, 30),
    {
        if self.sd_on {
            30
        } else {
            0
        }
    }

    /// Sum of all component draws.
    pub fn total_ma(&self) -> (r: u16)
        ensures
            r == self.spec_total_ma(),
            14 <= r <= 297,
    {
        self.base_ma() + self.display_ma() + self.wifi_ma() + self.ble_ma() + self.imu_ma()
            + self.audio_ma() + self.sd_ma()
    }

    /// Full-charge runtime in hours (capped at 999) for a battery of `capacity_mah`.
    pub fn full_runtime_hours(&self, capacity_mah: u16) -> (r: u16)
        ensures
            r == self.spec_hours(capacity_mah as int),
    {
        let load = self.total_ma();
        let h: u32 = capacity_mah as u32 / load as u32;
        if h < 999 {
            h as u16
        } else {
            999
        }
    }

    /// Remaining runtime in hours (capped at 999) from the battery percentage.
    pub fn estimated_hours(&self, capacity_mah: u16) -> (r: u16)
        ensures
            r == self.spec_hours(capacity_mah * self.battery_pct / 100),
    {
        let load = self.total_ma();
        let cap = capacity_mah as u32;
        let pct = self.battery_pct as u32;
        assert(cap * pct <= 65535 * 255) by (nonlinear_arith)
            requires
                cap <= 65535,
                pct <= 255,
        ;
        let usable: u32 = cap * pct / 100;
        let h: u32 = usable / load as u32;
        if h < 999 {
            h as u16
        } else {
            999
        }
    }
}

} // verus!
