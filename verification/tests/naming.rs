use agent_307::clock::{get_video_chunk_path, local_now, stamp_label, DateStamp};
use agent_307::misc::{sendable_anyhow, CamError};
use agent_307::text::{push_dec_i64, push_pad2, push_pad4, u64_to_dec};

fn stamp(year: i32, month: u8, day: u8, hour: u8, minute: u8, second: u8) -> DateStamp {
    DateStamp { year, month, day, hour, minute, second }
}

#[test]
fn decimal_rendering() {
    assert_eq!(u64_to_dec(0).as_str(), "0");
    assert_eq!(u64_to_dec(7).as_str(), "7");
    assert_eq!(u64_to_dec(10).as_str(), "10");
    assert_eq!(u64_to_dec(1234567890).as_str(), "1234567890");
    assert_eq!(u64_to_dec(u64::MAX).as_str(), "18446744073709551615");
}

#[test]
fn signed_decimal_rendering() {
    let mut s = String::new();
    push_dec_i64(&mut s, -42);
    assert_eq!(s.as_str(), "-42");
    let mut t = String::new();
    push_dec_i64(&mut t, 0);
    push_dec_i64(&mut t, i64::MIN);
    assert_eq!(t.as_str(), "0-9223372036854775808");
}

#[test]
fn zero_padding() {
    let mut s = String::new();
    push_pad2(&mut s, 3);
    push_pad2(&mut s, 59);
    push_pad2(&mut s, 123);
    assert_eq!(s.as_str(), "0359123");
    let mut t = String::new();
    push_pad4(&mut t, 7);
    push_pad4(&mut t, 87);
    push_pad4(&mut t, 987);
    push_pad4(&mut t, 2024);
    push_pad4(&mut t, 12345);
    assert_eq!(t.as_str(), "000700870987202412345");
}

#[test]
fn stamp_label_format() {
    let s = stamp(2024, 3, 7, 9, 5, 1);
    assert_eq!(stamp_label(&s).as_str(), "07.03.2024-09.05.01");
    let t = stamp(999, 12, 31, 23, 59, 58);
    assert_eq!(stamp_label(&t).as_str(), "31.12.0999-23.59.58");
}

#[test]
fn chunk_path_format() {
    let s = stamp(2025, 1, 2, 3, 4, 5);
    let p = get_video_chunk_path("/videos/Agent 307", 3, &s);
    assert_eq!(p.as_str(), "/videos/Agent 307/cam-3/rec-02.01.2025-03.04.05");
    let q = get_video_chunk_path("root", -1, &s);
    assert_eq!(q.as_str(), "root/cam--1/rec-02.01.2025-03.04.05");
}

#[test]
fn local_now_fields_in_range() {
    let now = local_now();
    assert!(now.month >= 1 && now.month <= 12);
    assert!(now.day >= 1 && now.day <= 31);
    assert!(now.hour < 24);
    assert!(now.minute < 60);
    assert!(now.second < 60);
}

#[test]
fn error_messages() {
    assert_eq!(
        CamError::DeviceOpen { device: 2 }.message().as_str(),
        "Failed to open video device 2"
    );
    assert_eq!(
        CamError::FpsBelowMinimum { device: 0 }.message().as_str(),
        "fps was less than 1.0 for video device 0"
    );
    assert_eq!(
        CamError::FrameWrite { device: -3 }.message().as_str(),
        "Failed to write frame for video device -3"
    );
    assert_eq!(CamError::ReapSweep.message().as_str(), "Failed to clean old files");
}

#[test]
fn sendable_anyhow_keeps_message() {
    let e = sendable_anyhow(String::from("it broke"));
    assert_eq!(e, CamError::Message { msg: String::from("it broke") });
    assert_eq!(e.message().as_str(), "it broke");
}
