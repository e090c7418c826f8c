use waveshare_watch::peripherals::audio::{fill_beep_buffer, Es8311};
use waveshare_watch::peripherals::ble::{adv_data, adv_enable, adv_params, start_advertising_commands, stop_advertising_commands};
use waveshare_watch::peripherals::bus::{step_write, RegStep};
use waveshare_watch::peripherals::http::{
    find_body_start, find_byte, format_post_request, format_request, parse_ip, parse_response,
    parse_unsigned_exec, parse_url,
};
use waveshare_watch::peripherals::imu::{decode_axes, decode_temperature, i16_from_le, init_steps, power_down_step, power_up_step};
use waveshare_watch::peripherals::io_expander::Tca9554;
use waveshare_watch::peripherals::power::Axp2101Power;
use waveshare_watch::peripherals::power_stats::{DisplayState, PowerStats, WifiMode};
use waveshare_watch::peripherals::rtc::{bcd_to_dec, dec_to_bcd, DateTime, Pcf85063aRtc};
use waveshare_watch::peripherals::sdcard::SdState;
use waveshare_watch::peripherals::touch::{Ft3168Touch, Gesture, SwipeDirection, TouchPoint};
use waveshare_watch::peripherals::wifi::{ScanResult, WifiConfig, WifiState};

fn wr(reg: u8, val: u8) -> RegStep {
    RegStep::Write { reg, val }
}

// ---------------------------------------------------------------- audio

#[test]
fn es8311_init_script_sets_clocks_and_volume() {
    let codec = Es8311::new();
    assert!(!codec.is_initialized());
    let steps = codec.init();
    assert_eq!(steps.len(), 20);
    assert_eq!(steps[0], wr(0x00, 0x1F));
    assert_eq!(steps[2], wr(0x00, 0x80));
    assert_eq!(steps[4], RegStep::Update { reg: 0x02, keep: 0x07, set: 0x20, read_fallback: Some(0) });
    assert_eq!(steps[8], RegStep::Update { reg: 0x06, keep: 0xE0, set: 0x03, read_fallback: Some(0) });
    assert_eq!(steps[19], wr(0x32, 0xD9));
}

#[test]
fn es8311_set_initialized_after_script() {
    let mut codec = Es8311::new();
    codec.set_initialized();
    assert!(codec.is_initialized());
}

#[test]
fn es8311_update_step_value() {
    assert_eq!(RegStep::updated_value(0xFF, 0x07, 0x20), 0x27);
    assert_eq!(RegStep::updated_value(0x00, 0xE0, 0x03), 0x03);
}

#[test]
fn es8311_mute_unmute_shutdown() {
    let codec = Es8311::new();
    assert_eq!(codec.set_volume(0x40), vec![wr(0x32, 0x40)]);
    assert_eq!(codec.mute(), vec![wr(0x12, 0x20), wr(0x13, 0x00), wr(0x32, 0x00)]);
    assert_eq!(
        codec.unmute(),
        vec![wr(0x0D, 0x01), wr(0x0E, 0x02), wr(0x12, 0x00), wr(0x13, 0x10), wr(0x32, 0xD0)]
    );
    assert_eq!(
        codec.shutdown(),
        vec![wr(0x32, 0x00), wr(0x13, 0x00), wr(0x12, 0x20), wr(0x0E, 0xFF), wr(0x0D, 0xFC)]
    );
}

#[test]
fn beep_square_wave_bytes() {
    // 1000 Hz at 4000 Hz sample rate: period 4 samples, 2 high then 2 low.
    let mut buf = [0u8; 40];
    let n = fill_beep_buffer(&mut buf, 1000, 4000, 2);
    assert_eq!(n, 32); // 8 samples of 4 bytes
    assert_eq!(&buf[0..4], &[0x10, 0x27, 0x10, 0x27]);
    assert_eq!(&buf[8..12], &[0xF0, 0xD8, 0xF0, 0xD8]);
    assert_eq!(&buf[16..20], &[0x10, 0x27, 0x10, 0x27]);
    assert_eq!(&buf[32..40], &[0u8; 8]);
}

#[test]
fn beep_stops_at_buffer_end() {
    let mut buf = [0xAAu8; 10];
    let n = fill_beep_buffer(&mut buf, 440, 16000, 100);
    assert_eq!(n, 8);
    assert_eq!(buf[8], 0xAA);
    assert_eq!(buf[9], 0xAA);
}

#[test]
fn beep_zero_frequency_is_all_low() {
    let mut buf = [0u8; 8];
    let n = fill_beep_buffer(&mut buf, 0, 1000, 2);
    assert_eq!(n, 8);
    assert_eq!(buf, [0xF0, 0xD8, 0xF0, 0xD8, 0xF0, 0xD8, 0xF0, 0xD8]);
}

// ---------------------------------------------------------------- power

#[test]
fn axp2101_voltages_are_14_bit() {
    let pmic = Axp2101Power::new();
    assert_eq!(pmic.get_battery_voltage(0x0F, 0xA0), 0x0FA0);
    assert_eq!(pmic.get_vbus_voltage(0xFF, 0xFF), 0x3FFF);
    assert_eq!(pmic.get_system_voltage(0x40, 0x01), 0x0001);
}

#[test]
fn axp2101_charging_states() {
    let pmic = Axp2101Power::new();
    assert!(!pmic.is_charging(0x00));
    assert!(pmic.is_charging(0x20));
    assert!(pmic.is_charging(0x60));
    assert!(!pmic.is_charging(0x80));
    assert!(pmic.is_vbus_in(0x20));
    assert!(!pmic.is_vbus_in(0xDF));
}

#[test]
fn axp2101_init_and_trim_scripts() {
    let pmic = Axp2101Power::new();
    let steps = pmic.init();
    assert_eq!(steps[0], wr(0x82, 18));
    assert_eq!(steps.last(), Some(&wr(0x30, 0b0001_1101)));
    assert_eq!(pmic.trim_adc_channels(), vec![wr(0x30, 0b0000_1101)]);
}

#[test]
fn power_stats_defaults() {
    let s = PowerStats::new();
    assert_eq!(s.base_ma(), 38);
    assert_eq!(s.display_ma(), 0);
    assert_eq!(s.wifi_ma(), 0);
    assert_eq!(s.total_ma(), 38);
    assert_eq!(s.full_runtime_hours(380), 10);
    assert_eq!(s.estimated_hours(380), 0);
}

#[test]
fn power_stats_full_load() {
    let mut s = PowerStats::new();
    s.cpu_mhz = 240;
    s.display = Some(DisplayState::Bright);
    s.brightness = 0xFF;
    s.wifi = Some(WifiMode::Active);
    s.ble_on = true;
    s.imu_on = true;
    s.audio_on = true;
    s.sd_on = true;
    s.battery_pct = 50;
    assert_eq!(s.display_ma(), 80);
    assert_eq!(s.total_ma(), 55 + 80 + 90 + 15 + 2 + 25 + 30);
    assert_eq!(s.full_runtime_hours(594), 2);
    assert_eq!(s.estimated_hours(594), 1);
}

#[test]
fn power_stats_runtime_capped() {
    let mut s = PowerStats::new();
    s.cpu_mhz = 40;
    s.battery_pct = 100;
    assert_eq!(s.base_ma(), 14);
    assert_eq!(s.full_runtime_hours(65000), 999);
    assert_eq!(s.estimated_hours(65000), 999);
    s.display = Some(DisplayState::Aod);
    s.wifi = Some(WifiMode::PowerSave);
    assert_eq!(s.display_ma(), 8);
    assert_eq!(s.wifi_ma(), 20);
    s.display = Some(DisplayState::Dim);
    assert_eq!(s.display_ma(), 25);
}

// ---------------------------------------------------------------- rtc

#[test]
fn bcd_conversions() {
    assert_eq!(bcd_to_dec(0x59), 59);
    assert_eq!(dec_to_bcd(59), 0x59);
    assert_eq!(dec_to_bcd(7), 0x07);
    for v in 0..100u8 {
        assert_eq!(bcd_to_dec(dec_to_bcd(v)), v);
    }
}

#[test]
fn rtc_decodes_burst_read() {
    let rtc = Pcf85063aRtc::new();
    let t = rtc.get_time(&[0x80 | 0x45, 0x30, 0x23, 0x31, 0x06, 0x12, 0x26]);
    assert_eq!(t, DateTime { seconds: 45, minutes: 30, hours: 23, day: 31, weekday: 6, month: 12, year: 26 });
}

#[test]
fn rtc_init_clears_stop_and_12h_bits() {
    let rtc = Pcf85063aRtc::new();
    assert_eq!(rtc.init(0x00), None);
    assert_eq!(rtc.init(0x24), Some(0x00));
    assert_eq!(rtc.init(0xFF), Some(0xDB));
}

#[test]
fn rtc_set_then_get_round_trip() {
    let rtc = Pcf85063aRtc::new();
    let dt = DateTime::new(26, 4, 6, 13, 37, 5);
    assert_eq!(dt.weekday, 0);
    let steps = rtc.set_time(0x00, &dt);
    assert_eq!(steps.len(), 9);
    assert_eq!(steps[0], wr(0x00, 0x20));
    assert_eq!(steps[8], wr(0x00, 0x00));
    let mut regs = [0u8; 7];
    for (i, s) in steps[1..8].iter().enumerate() {
        match s {
            RegStep::Write { reg, val } => {
                assert_eq!(*reg as usize, 0x04 + i);
                regs[i] = *val;
            }
            _ => panic!("unexpected step"),
        }
    }
    assert_eq!(rtc.get_time(&regs), dt);
}

// ---------------------------------------------------------------- touch

#[test]
fn touch_read_decodes_12_bit_coordinates() {
    let t = Ft3168Touch::new();
    assert_eq!(t.read(&[0, 0x01, 0x02, 0x03, 0x04]), None);
    assert_eq!(
        t.read(&[1, 0xF1, 0x70, 0x01, 0xC0]),
        Some(TouchPoint { x: 0x170, y: 0x1C0, fingers: 1 })
    );
    assert_eq!(t.init(), vec![wr(0xA5, 0x01)]);
}

#[test]
fn touch_swipe_classification() {
    assert_eq!(Ft3168Touch::swipe_direction(100, 100, 110, 120), SwipeDirection::Tap);
    assert_eq!(Ft3168Touch::swipe_direction(100, 100, 200, 110), SwipeDirection::Right);
    assert_eq!(Ft3168Touch::swipe_direction(200, 100, 100, 110), SwipeDirection::Left);
    assert_eq!(Ft3168Touch::swipe_direction(100, 300, 110, 100), SwipeDirection::Up);
    assert_eq!(Ft3168Touch::swipe_direction(100, 100, 110, 300), SwipeDirection::Down);
    // diagonal: neither axis dominates by 1.5x
    assert_eq!(Ft3168Touch::swipe_direction(100, 100, 200, 200), SwipeDirection::Tap);
}

#[test]
fn touch_poll_reports_swipe_on_release() {
    let mut t = Ft3168Touch::new();
    let p1 = TouchPoint { x: 50, y: 200, fingers: 1 };
    let p2 = TouchPoint { x: 250, y: 210, fingers: 1 };
    let (cur, ev) = t.poll(Some(p1));
    assert_eq!(cur, Some(p1));
    assert!(ev.is_none());
    assert!(t.is_tracking());
    let (_, ev) = t.poll(Some(p2));
    assert!(ev.is_none());
    let (cur, ev) = t.poll(None);
    assert!(cur.is_none());
    let ev = ev.unwrap();
    assert_eq!(ev.direction, SwipeDirection::Right);
    assert_eq!((ev.start_x, ev.start_y, ev.end_x, ev.end_y), (50, 200, 250, 210));
    assert!(!t.is_tracking());
    let (cur, ev) = t.poll(None);
    assert!(cur.is_none() && ev.is_none());
}

#[test]
fn touch_gesture_ids() {
    let t = Ft3168Touch::new();
    assert_eq!(t.read_gesture(0x00), Gesture::NoGesture);
    assert_eq!(t.read_gesture(0x01), Gesture::SwipeUp);
    assert_eq!(t.read_gesture(0x04), Gesture::SwipeRight);
    assert_eq!(t.read_gesture(0x0B), Gesture::DoubleTap);
    assert_eq!(t.read_gesture(0x0C), Gesture::LongPress);
    assert_eq!(t.read_gesture(0x42), Gesture::Unknown(0x42));
}

// ---------------------------------------------------------------- io expander

#[test]
fn tca9554_set_output_touches_only_its_pin() {
    let mut io = Tca9554::new();
    assert_eq!(io.init(), vec![wr(0x01, 0x00), wr(0x03, 0xFF)]);
    let steps = io.set_output(2, true);
    assert_eq!(steps, vec![wr(0x01, 0x04), wr(0x03, 0xFB)]);
    let steps = io.set_output(7, true);
    assert_eq!(steps, vec![wr(0x01, 0x84), wr(0x03, 0x7B)]);
    let steps = io.set_output(2, false);
    assert_eq!(steps, vec![wr(0x01, 0x80), wr(0x03, 0x7B)]);
}

// ---------------------------------------------------------------- wifi

#[test]
fn wifi_config_truncates_and_reads_back() {
    let mut c = WifiConfig::new();
    assert_eq!(c.ssid_str(), "");
    c.set_ssid("HomeNet");
    c.set_password("secret");
    assert_eq!(c.ssid_str(), "HomeNet");
    assert_eq!(&c.password[..c.pass_len], b"secret");
    c.set_ssid("0123456789012345678901234567890123456789");
    assert_eq!(c.ssid_len, 32);
    assert_eq!(c.ssid_str(), "01234567890123456789012345678901");
}

#[test]
fn wifi_ssid_keeps_bytes_past_new_length() {
    let mut c = WifiConfig::new();
    c.set_ssid("LongNetworkName");
    c.set_ssid("Net");
    assert_eq!(c.ssid_len, 3);
    assert_eq!(&c.ssid[..15], b"NetgNetworkName");
    assert_eq!(c.ssid_str(), "Net");
    c.set_password("password1");
    c.set_password("pw");
    assert_eq!(&c.password[..9], b"pwssword1");
}

#[test]
fn register_step_writes() {
    assert_eq!(step_write(RegStep::Write { reg: 3, val: 9 }, None), Some((3, 9)));
    let up = RegStep::Update { reg: 0x10, keep: 0xF0, set: 0x05, read_fallback: None };
    assert_eq!(step_write(up, Some(0xAB)), Some((0x10, 0xA5)));
    assert_eq!(step_write(up, None), None);
    let fb = RegStep::Update { reg: 0x10, keep: 0xF0, set: 0x05, read_fallback: Some(0x3C) };
    assert_eq!(step_write(fb, None), Some((0x10, 0x35)));
}

#[test]
fn wifi_ssid_cut_inside_character_reads_empty() {
    let mut c = WifiConfig::new();
    // 31 ASCII bytes then a two-byte character: the cut at 32 splits it.
    c.set_ssid("aaaaaaaaaaaaaaaaaaaaaaaaaaaaaaaé");
    assert_eq!(c.ssid_len, 32);
    assert_eq!(c.ssid_str(), "");
}

#[test]
fn scan_result_ssid_or_question_mark() {
    let mut r = ScanResult { ssid: [0u8; 32], ssid_len: 4, rssi: -60 };
    r.ssid[..4].copy_from_slice(b"Cafe");
    assert_eq!(r.ssid_str(), "Cafe");
    r.ssid[0] = 0xFF;
    assert_eq!(r.ssid_str(), "?");
    assert_eq!(WifiState::Disconnected, WifiState::Disconnected);
}

// ---------------------------------------------------------------- imu

#[test]
fn imu_init_requires_chip_id() {
    assert!(init_steps(0x00).is_none());
    let steps = init_steps(0x05).unwrap();
    assert_eq!(
        steps,
        vec![wr(0x02, 0x40), wr(0x02, 0x60), wr(0x03, 0x25), wr(0x04, 0x35), wr(0x06, 0x11), wr(0x08, 0x03)]
    );
    assert_eq!(power_down_step(), wr(0x08, 0x00));
    assert_eq!(power_up_step(), wr(0x08, 0x03));
}

#[test]
fn imu_little_endian_samples() {
    assert_eq!(i16_from_le(0x00, 0x10), 4096);
    assert_eq!(i16_from_le(0xFF, 0xFF), -1);
    assert_eq!(i16_from_le(0x00, 0x80), i16::MIN);
    assert_eq!(decode_axes(&[0x00, 0x10, 0x00, 0xF0, 0x34, 0x12]), [4096, -4096, 0x1234]);
    assert_eq!(decode_temperature(&[0x00, 0x19]), 25 * 256);
}

// ---------------------------------------------------------------- ble

#[test]
fn ble_advertising_commands() {
    let params = adv_params();
    assert_eq!(params.len(), 19);
    assert_eq!(&params[..4], &[0x01, 0x06, 0x20, 15]);
    let data = adv_data();
    assert_eq!(data.len(), 36);
    assert_eq!(&data[..10], &[0x01, 0x08, 0x20, 32, 15, 2, 0x01, 0x06, 11, 0x09]);
    assert_eq!(&data[10..20], b"Rust Watch");
    assert!(data[20..].iter().all(|&b| b == 0));
    assert_eq!(adv_enable(true), vec![0x01, 0x0A, 0x20, 1, 1]);
    let start = start_advertising_commands();
    assert_eq!(start, vec![params, data, adv_enable(true)]);
    assert_eq!(stop_advertising_commands(), vec![vec![0x01, 0x0A, 0x20, 1, 0]]);
}

#[test]
fn sd_state_values() {
    assert_ne!(SdState::Mounted, SdState::Error);
    assert_eq!(SdState::NotInserted, SdState::NotInserted);
}

// ---------------------------------------------------------------- http

#[test]
fn http_parse_url_with_port_and_path() {
    let (host, port, path) = parse_url(b"http://192.168.1.10:8080/api/light").unwrap();
    assert_eq!(host, b"192.168.1.10");
    assert_eq!(port, 8080);
    assert_eq!(path, b"/api/light");
}

#[test]
fn http_parse_url_defaults() {
    let (host, port, path) = parse_url(b"http://example").unwrap();
    assert_eq!(host, b"example");
    assert_eq!(port, 80);
    assert_eq!(path, b"/");
    let (host, port, path) = parse_url(b"10.0.0.1/x").unwrap();
    assert_eq!((host.as_slice(), port, path.as_slice()), (&b"10.0.0.1"[..], 80, &b"/x"[..]));
    // a port that is not a number falls back to 80
    let (host, port, _) = parse_url(b"http://h:99999/").unwrap();
    assert_eq!((host.as_slice(), port), (&b"h"[..], 80));
}

#[test]
fn http_parse_unsigned() {
    assert_eq!(parse_unsigned_exec(b"255", 255), Some(255));
    assert_eq!(parse_unsigned_exec(b"+7", 255), Some(7));
    assert_eq!(parse_unsigned_exec(b"256", 255), None);
    assert_eq!(parse_unsigned_exec(b"", 255), None);
    assert_eq!(parse_unsigned_exec(b"+", 255), None);
    assert_eq!(parse_unsigned_exec(b"1a", 255), None);
    assert_eq!(find_byte(b"a:b:c", b':'), Some(1));
    assert_eq!(find_byte(b"abc", b':'), None);
}

#[test]
fn http_parse_ip() {
    assert_eq!(parse_ip(b"192.168.1.10"), Ok([192, 168, 1, 10]));
    assert_eq!(parse_ip(b"0.0.0.0"), Ok([0, 0, 0, 0]));
    assert_eq!(parse_ip(b"1.2.3"), Err(()));
    assert_eq!(parse_ip(b"1.2.3.4.5"), Err(()));
    assert_eq!(parse_ip(b"1.2.3.256"), Err(()));
    assert_eq!(parse_ip(b"example.com"), Err(()));
    assert_eq!(parse_ip(b"1..2.3"), Err(()));
}

#[test]
fn http_format_get_request() {
    let mut buf = [0u8; 256];
    let n = format_request(&mut buf, b"GET", b"10.0.0.2", b"/on");
    let expected = b"GET /on HTTP/1.1\r\nHost: 10.0.0.2\r\nConnection: close\r\n\r\n";
    assert_eq!(&buf[..n], &expected[..]);
}

#[test]
fn http_format_request_is_cut_to_buffer() {
    let mut buf = [0xEEu8; 10];
    let n = format_request(&mut buf, b"GET", b"h", b"/path");
    assert_eq!(n, 10);
    assert_eq!(&buf, b"GET /path ");
}

#[test]
fn http_format_post_request() {
    let mut buf = [0u8; 384];
    let n = format_post_request(&mut buf, b"h", b"/p", b"{\"on\":true}");
    let expected: &[u8] = b"POST /p HTTP/1.1\r\nHost: h\r\nContent-Type: application/json\r\nConnection: close\r\nContent-Length: 11\r\n\r\n{\"on\":true}";
    assert_eq!(&buf[..n], expected);
    let body = [b'x'; 123];
    let n = format_post_request(&mut buf, b"h", b"/", &body);
    let text = &buf[..n];
    let needle = b"Content-Length: 123\r\n\r\n";
    assert!(text.windows(needle.len()).any(|w| w == needle));
}

#[test]
fn http_format_post_request_full_before_length() {
    // The head fills the buffer, so the (out-of-range) hundreds digit is never written.
    let mut buf = [0u8; 93];
    let body = vec![b'x'; 20800];
    let n = format_post_request(&mut buf, b"h", b"/", &body);
    assert_eq!(n, 93);
    assert_eq!(&buf[..], &b"POST / HTTP/1.1\r\nHost: h\r\nContent-Type: application/json\r\nConnection: close\r\nContent-Length: "[..]);
}

#[test]
fn http_parse_response_status_and_body() {
    let data = b"HTTP/1.1 200 OK\r\nContent-Type: text/plain\r\n\r\nhello";
    let resp = parse_response(data).unwrap();
    assert_eq!(resp.status, 200);
    assert_eq!(resp.body_len, 5);
    assert_eq!(&resp.body[..5], b"hello");
    assert_eq!(find_body_start(data), data.len() - 5);
}

#[test]
fn http_parse_response_errors_and_fallbacks() {
    assert!(parse_response(b"HTTP/1.1 20").is_err());
    // status bytes that are not UTF-8
    assert!(parse_response(b"HTTP/1.1 \xFF00 OK\r\n\r\n").is_err());
    // status that is not a number gives 0; no blank line gives an empty body
    let resp = parse_response(b"HTTP/1.1 abc xyz").unwrap();
    assert_eq!(resp.status, 0);
    assert_eq!(resp.body_len, 0);
}

#[test]
fn http_parse_response_keeps_128_body_bytes() {
    let mut data = b"HTTP/1.0 404 Not Found\r\n\r\n".to_vec();
    data.extend(std::iter::repeat(b'z').take(200));
    let resp = parse_response(&data).unwrap();
    assert_eq!(resp.status, 404);
    assert_eq!(resp.body_len, 128);
    assert!(resp.body.iter().all(|&b| b == b'z'));
}
