use agent_307::frame::Frame;
use agent_307::writer::{save_video_chunk, VideoWriter};

fn frame(tag: u8) -> Frame {
    Frame { width: 4, height: 2, data: vec![tag, tag, tag] }
}

#[test]
fn frame_files_numbered_from_zero() {
    let mut w = VideoWriter::new(String::from("root/rec-a"), 10);
    let c0 = w.write(&frame(9));
    let c1 = w.write(&frame(8));
    let c2 = w.write(&frame(7));
    assert_eq!(c0.path.as_str(), "root/rec-a/0.bmp");
    assert_eq!(c1.path.as_str(), "root/rec-a/1.bmp");
    assert_eq!(c2.path.as_str(), "root/rec-a/2.bmp");
    assert_eq!(c0.index, 0);
    assert_eq!(c1.index, 1);
    assert_eq!(c2.index, 2);
    assert_eq!(c0.frame.data, vec![9, 9, 9]);
}

#[test]
fn batches_share_one_counter_without_overlap() {
    // Two batch saves through the same chunk writer serialize: the
    // second continues exactly where the first stopped.
    let mut w = VideoWriter::new(String::from("out/rec-b"), 30);
    let first = save_video_chunk(&mut w, &vec![frame(1), frame(2)]);
    let second = save_video_chunk(&mut w, &vec![frame(3), frame(4), frame(5)]);
    let mut all: Vec<usize> = Vec::new();
    for c in first.iter().chain(second.iter()) {
        all.push(c.index);
    }
    assert_eq!(all, vec![0, 1, 2, 3, 4]);
    assert_eq!(second[0].path.as_str(), "out/rec-b/2.bmp");
    assert_eq!(second[2].path.as_str(), "out/rec-b/4.bmp");
    // no two writes ever name the same file
    for (i, a) in first.iter().chain(second.iter()).enumerate() {
        for (j, b) in first.iter().chain(second.iter()).enumerate() {
            if i != j {
                assert_ne!(a.path, b.path);
            }
        }
    }
}

#[test]
fn finish_builds_the_encoder_invocation() {
    let mut w = VideoWriter::new(String::from("/data/cam-0/rec-01.02.2025-10.20.30"), 25);
    let _ = w.write(&frame(1));
    let job = w.finish();
    assert_eq!(job.working_dir.as_str(), "/data/cam-0");
    assert_eq!(job.program.as_str(), "ffmpeg");
    let args: Vec<&str> = job.args.iter().map(|a| a.as_str()).collect();
    assert_eq!(
        args,
        vec![
            "-framerate",
            "25",
            "-start_number",
            "0",
            "-i",
            "rec-01.02.2025-10.20.30/%d.bmp",
            "-c:v",
            "libx264",
            "-pix_fmt",
            "yuv420p",
            "rec-01.02.2025-10.20.30.mp4",
        ]
    );
    assert_eq!(job.remove_dir.as_str(), "/data/cam-0/rec-01.02.2025-10.20.30");
}
