use agent_307::clock::DateStamp;
use agent_307::config::{
    config_video_device_configs_default, unique_video_devices, VideoDeviceConfig,
    VideoDeviceRecordingConfig,
};
use agent_307::frame::Frame;
use agent_307::misc::CamError;
use agent_307::video::{compute_target_size, CaptureEngine, VideoCam};

fn stamp(second: u8) -> DateStamp {
    DateStamp { year: 2025, month: 6, day: 15, hour: 12, minute: 0, second }
}

fn device(idx: i32, recording: bool, max_width: Option<u16>) -> VideoDeviceConfig {
    VideoDeviceConfig {
        idx,
        recording: VideoDeviceRecordingConfig { enabled: recording },
        max_resolution_width: max_width,
    }
}

fn frame(tag: usize) -> Frame {
    Frame { width: 640, height: 360, data: vec![(tag % 251) as u8] }
}

#[test]
fn resize_preserves_aspect_ratio() {
    assert_eq!(compute_target_size(1920, 1080, Some(640)), (640, 360));
    assert_eq!(compute_target_size(1920, 1080, None), (1920, 1080));
    // a configured maximum above the native width does not upscale
    assert_eq!(compute_target_size(640, 480, Some(1280)), (640, 480));
    assert_eq!(compute_target_size(1280, 720, Some(320)), (320, 180));
}

#[test]
fn default_devices_hold_one_entry() {
    let d = config_video_device_configs_default();
    assert_eq!(d.len(), 1);
    assert_eq!(d[0].idx, 0);
    assert!(!d[0].recording.enabled);
    assert_eq!(d[0].max_resolution_width, None);
}

#[test]
fn duplicate_device_indices_collapse_to_one_session() {
    let devices = vec![
        device(1, true, None),
        device(0, false, Some(640)),
        device(1, false, Some(320)),
        device(2, false, None),
        device(0, true, None),
    ];
    let unique = unique_video_devices(&devices);
    let indices: Vec<i32> = unique.iter().map(|d| d.idx).collect();
    assert_eq!(indices, vec![1, 0, 2]);
    // the first entry with a given index is the one kept
    assert!(unique[0].recording.enabled);
    assert_eq!(unique[1].max_resolution_width, Some(640));
}

#[test]
fn slow_device_is_rejected() {
    let cfg = device(4, false, None);
    let r = CaptureEngine::new(&cfg, String::from("root"), 999, 640, 480, &stamp(0));
    assert_eq!(r.err(), Some(CamError::FpsBelowMinimum { device: 4 }));
    let ok = CaptureEngine::new(&cfg, String::from("root"), 1000, 640, 480, &stamp(0));
    assert!(ok.is_ok());
}

#[test]
fn ring_and_clip_lengths_follow_the_frame_rate() {
    let cfg = device(0, false, None);
    // 10 frames per second: two seconds of ring, four minutes of clip
    let e = CaptureEngine::new(&cfg, String::from("root"), 10000, 640, 480, &stamp(0)).unwrap();
    assert_eq!(e.ring_len, 20);
    assert_eq!(e.clip_len, 2400);
    assert_eq!(e.frame_rate, 10);
    // 29.97 frames per second rounds to the nearest frame
    let e2 = CaptureEngine::new(&cfg, String::from("root"), 29970, 640, 480, &stamp(0)).unwrap();
    assert_eq!(e2.ring_len, 60);
    assert_eq!(e2.clip_len, 7193);
    assert_eq!(e2.frame_rate, 30);
}

#[test]
fn frame_slot_publishes_every_frame() {
    let cfg = device(0, false, None);
    let mut cam = VideoCam::new(cfg);
    let mut e = CaptureEngine::new(&cfg, String::from("root"), 2000, 640, 480, &stamp(0)).unwrap();
    assert_eq!(cam.frame.seq, 0);
    let fx = e.step(&mut cam, frame(1), &stamp(1));
    assert_eq!(cam.frame.seq, 1);
    assert_eq!(cam.frame.frame.data, vec![1]);
    assert!(fx.writes.is_empty());
    assert!(fx.finalize.is_none());
    let _ = e.step(&mut cam, frame(2), &stamp(2));
    assert_eq!(cam.frame.seq, 2);
    assert_eq!(cam.frame.frame.data, vec![2]);
    assert!(!cam.errored);
    cam.set_errored();
    assert!(cam.errored);
}

#[test]
fn frame_slot_sequence_never_decreases() {
    let cfg = device(0, false, None);
    let mut cam = VideoCam::new(cfg);
    let mut e = CaptureEngine::new(&cfg, String::from("root"), 1000, 320, 240, &stamp(0)).unwrap();
    cam.frame.seq = u64::MAX;
    let _ = e.step(&mut cam, frame(1), &stamp(1));
    assert_eq!(cam.frame.seq, u64::MAX);
    assert_eq!(cam.frame.frame.data, vec![1]);
}

#[test]
fn no_recording_means_no_writes() {
    let cfg = device(0, false, None);
    let mut cam = VideoCam::new(cfg);
    let mut e = CaptureEngine::new(&cfg, String::from("root"), 1000, 320, 240, &stamp(0)).unwrap();
    assert!(e.current_chunk_dir().is_none());
    for i in 0..500 {
        let fx = e.step(&mut cam, frame(i), &stamp(0));
        assert!(fx.writes.is_empty());
        assert!(fx.finalize.is_none());
        assert!(fx.new_chunk_dir.is_none());
    }
}

#[test]
fn cycles_flush_in_disjoint_contiguous_batches() {
    let cfg = device(7, true, None);
    let mut cam = VideoCam::new(cfg);
    // 2 frames per second: ring of 4, clip of 480
    let mut e = CaptureEngine::new(&cfg, String::from("vids"), 2000, 640, 480, &stamp(3)).unwrap();
    assert_eq!(e.ring_len, 4);
    let dir = e.current_chunk_dir().unwrap();
    assert_eq!(dir.as_str(), "vids/cam-7/rec-15.06.2025-12.00.03");
    let mut seen: Vec<(String, u8)> = Vec::new();
    for i in 0..12 {
        let fx = e.step(&mut cam, frame(i), &stamp(3));
        if (i + 1) % 4 == 0 {
            assert_eq!(fx.writes.len(), 4);
        } else {
            assert!(fx.writes.is_empty());
        }
        for w in fx.writes {
            seen.push((w.path, w.frame.data[0]));
        }
    }
    // three flushed cycles: files 0..12, each holding its own frame
    assert_eq!(seen.len(), 12);
    for (i, (path, tag)) in seen.iter().enumerate() {
        assert_eq!(path.as_str(), format!("{}/{}.bmp", dir, i).as_str());
        assert_eq!(*tag as usize, i % 251);
    }
}

#[test]
fn a_partial_clip_flushes_whole_cycles_only() {
    let cfg = device(0, true, None);
    let mut cam = VideoCam::new(cfg);
    // 10 frames per second for 482 frames: 24 whole twenty-frame
    // cycles reach the chunk, the last two frames stay in the ring,
    // and the clip is far from complete
    let mut e = CaptureEngine::new(&cfg, String::from("root"), 10000, 640, 480, &stamp(0)).unwrap();
    let mut written = 0usize;
    for i in 0..482 {
        let fx = e.step(&mut cam, frame(i), &stamp(0));
        written += fx.writes.len();
        assert!(fx.finalize.is_none());
        assert!(fx.new_chunk_dir.is_none());
    }
    assert_eq!(written, 480);
    assert_eq!(cam.frame.seq, 482);
}

#[test]
fn one_clip_rotates_into_a_fresh_chunk() {
    let cfg = device(0, true, Some(640));
    let mut cam = VideoCam::new(cfg);
    // 10 frames per second: ring of 20, clip of 2400
    let mut e =
        CaptureEngine::new(&cfg, String::from("root"), 10000, 1920, 1080, &stamp(10)).unwrap();
    let first_dir = e.current_chunk_dir().unwrap();
    assert_eq!(first_dir.as_str(), "root/cam-0/rec-15.06.2025-12.00.10");

    // a simulated disk: raw frame files on it, and the encoder runs seen
    let mut disk: Vec<String> = Vec::new();
    let mut finalizes = 0usize;
    let mut second_dir: Option<String> = None;

    // slightly over one four-minute clip
    for i in 0..2420 {
        let second = if i < 2399 { 10u8 } else { 11u8 };
        let fx = e.step(&mut cam, frame(i), &stamp(second));
        for w in fx.writes {
            disk.push(w.path);
        }
        if let Some(job) = fx.finalize {
            finalizes += 1;
            // the whole clip stood on disk, contiguously numbered
            let prefix = format!("{}/", job.remove_dir);
            let chunk_files: Vec<&String> =
                disk.iter().filter(|p| p.starts_with(&prefix)).collect();
            assert_eq!(chunk_files.len(), 2400);
            assert!(disk.contains(&format!("{}0.bmp", prefix)));
            assert!(disk.contains(&format!("{}2399.bmp", prefix)));
            assert_eq!(job.remove_dir, first_dir);
            // the encoder has run: the raw directory is removed
            disk.retain(|p| !p.starts_with(&prefix));
        }
        if let Some(d) = fx.new_chunk_dir {
            second_dir = Some(d);
        }
    }

    // exactly one finalize, and a fresh chunk directory took over
    assert_eq!(finalizes, 1);
    let second_dir = second_dir.expect("a fresh chunk directory");
    assert_eq!(second_dir.as_str(), "root/cam-0/rec-15.06.2025-12.00.11");
    assert_ne!(second_dir, first_dir);
    assert_eq!(e.current_chunk_dir().unwrap(), second_dir);

    // the finalized chunk's raw directory is gone; the fresh chunk has
    // received the frames captured since rotation
    let first_prefix = format!("{}/", first_dir);
    assert!(disk.iter().all(|p| !p.starts_with(&first_prefix)));
    let second_prefix = format!("{}/", second_dir);
    let new_files: Vec<&String> = disk.iter().filter(|p| p.starts_with(&second_prefix)).collect();
    assert_eq!(new_files.len(), 20);
    assert!(disk.contains(&format!("{}0.bmp", second_prefix)));
    assert!(disk.contains(&format!("{}19.bmp", second_prefix)));
}
