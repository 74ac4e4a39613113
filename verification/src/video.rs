//! The per-camera capture pipeline: the shared frame slot, the ring
//! buffer of recent frames, chunk rotation, and the bounded-retry
//! supervisor around one capture attempt.
//!
//! The capture engine holds every decision of the capture loop. The
//! caller owns the device: it reads and resizes one frame at a time and
//! hands it to [`CaptureEngine::step`], which publishes it to the frame
//! slot, stores it in the ring, and says which frame files are due to be
//! written and when a chunk is to be finalized and a fresh one begun.

use vstd::prelude::*;
use crate::clock::{DateStamp, chunk_path_rep, get_video_chunk_path};
use crate::config::VideoDeviceConfig;
use crate::frame::{Frame, FrameV, frames_view};
use crate::misc::CamError;
use crate::writer::{EncodeJob, VideoWriter, WriteCmd, encode_job_matches, frame_file_rep, save_video_chunk};

verus! {

/// The lowest frame rate a device may report, in thousandths of a frame
/// per second: below one frame per second the device is rejected.
pub const MIN_FPS_MILLIS: u64 = 1000;

/// The highest frame rate the engine accepts, in thousandths of a frame
/// per second, so that ring and clip sizes stay well inside machine
/// bounds.
pub const MAX_FPS_MILLIS: u64 = 1000000;

/// The ring buffer holds about this many seconds of capture.
pub const RING_SECONDS: u64 = 2;

/// A full clip holds about this many seconds of capture: four minutes.
pub const CLIP_SECONDS: u64 = 240;

/// How many consecutive failed capture attempts are tolerated before a
/// camera is marked terminally failed.
pub const RETRY_LIMIT: u32 = 3;

/// A failed attempt that ran longer than this resets the failure
/// counter: failures separated by long uptime count as independent.
pub const RETRY_RESET_MILLIS: u64 = 7200000;

/// The pause between two capture attempts.
pub const RETRY_SLEEP_MILLIS: u64 = 1000;

/// The shared latest-frame cell: the newest decoded frame and a
/// sequence number that never decreases.
pub struct FrameSlot {
    pub seq: u64,
    pub frame: Frame,
}

/// One camera session: its configuration, its frame slot, and its
/// terminal error flag.
pub struct VideoCam {
    pub config: VideoDeviceConfig,
    pub frame: FrameSlot,
    pub errored: bool,
}

impl VideoCam {
    /// A fresh session: sequence number zero, an empty frame, no error.
    pub fn new(config: VideoDeviceConfig) -> (cam: VideoCam)
        ensures
            cam.config == config,
            cam.frame.seq == 0,
            cam.frame.frame@ == (FrameV { width: 0, height: 0, data: Seq::<u8>::empty() }),
            !cam.errored,
    {
        VideoCam { config, frame: FrameSlot { seq: 0, frame: Frame::new_empty() }, errored: false }
    }

    /// Marks the session terminally failed. The flag is set once and
    /// never cleared.
    pub fn set_errored(&mut self)
        ensures
            final(self).errored,
            final(self).config == old(self).config,
            final(self).frame == old(self).frame,
    {
        self.errored = true;
    }
}

/// The width frames are scaled to: the configured maximum where one is
/// set and smaller than the native width, else the native width.
pub open spec fn target_width_spec(native_width: int, max_width: Option<u16>) -> int {
    match max_width {
        Option::Some(m) => if m < native_width {
            m as int
        } else {
            native_width
        },
        Option::None => native_width,
    }
}

/// The height that keeps the native aspect ratio at the target width,
/// rounded down.
pub open spec fn target_height_spec(
    native_width: int,
    native_height: int,
    max_width: Option<u16>,
) -> int {
    target_width_spec(native_width, max_width) * native_height / native_width
}

/// The size captured frames are scaled to before they are published and
/// recorded: width capped by the configured maximum, height keeping the
/// native aspect ratio.
pub fn compute_target_size(native_width: u32, native_height: u32, max_width: Option<u16>) -> (size:
    (u32, u32))
    requires
        native_width >= 1,
    ensures
        size.0 == target_width_spec(native_width as int, max_width),
        size.1 == target_height_spec(native_width as int, native_height as int, max_width),
{
    let tw: u32 = match max_width {
        Option::Some(m) => if (m as u32) < native_width {
            m as u32
        } else {
            native_width
        },
        Option::None => native_width,
    };
    proof {
        assert((tw as int) * (native_height as int) <= 0xffffffff * 0xffffffff)
            by (nonlinear_arith)
            requires
                tw as int <= 0xffffffff,
                native_height as int <= 0xffffffff,
                tw as int >= 0,
                native_height as int >= 0,
        ;
    }
    let th64: u64 = (tw as u64) * (native_height as u64) / (native_width as u64);
    proof {
        assert((tw as int) * (native_height as int) / (native_width as int)
            <= native_height as int) by (nonlinear_arith)
            requires
                tw as int <= native_width as int,
                native_width as int >= 1,
                native_height as int >= 0,
        ;
    }
    (tw, th64 as u32)
}

/// What the supervisor decides once one capture attempt has ended.
#[derive(Debug, Clone, Copy, PartialEq, Eq, Structural)]
pub enum RetryDecision {
    /// The attempt ended normally: the session is over.
    Succeeded,
    /// Sleep for [`RETRY_SLEEP_MILLIS`] and try again.
    RetryAfterDelay,
    /// Too many rapid failures: mark the camera errored and stop.
    TerminalFailure,
}

/// The supervisor's transition: given the count of consecutive failures
/// so far, whether the just-ended attempt succeeded, and how long that
/// attempt ran, the decision and the new count.
///
/// A failed attempt that ran longer than the reset window clears the
/// count — the comparison is against the just-ended attempt's own start,
/// as the capture path has always made it.
pub open spec fn supervise_spec(count: u32, attempt_ok: bool, elapsed_millis: u64) -> (
    RetryDecision,
    u32,
) {
    if attempt_ok {
        (RetryDecision::Succeeded, count)
    } else if elapsed_millis > RETRY_RESET_MILLIS {
        (RetryDecision::RetryAfterDelay, 0u32)
    } else if count >= RETRY_LIMIT {
        (RetryDecision::TerminalFailure, count)
    } else {
        (RetryDecision::RetryAfterDelay, (count + 1) as u32)
    }
}

/// The bounded-retry supervisor around one camera's capture attempts.
pub struct RetrySupervisor {
    /// Consecutive failed attempts so far.
    pub try_count: u32,
}

impl RetrySupervisor {
    /// The failure count never passes the retry limit.
    pub open spec fn wf(self) -> bool {
        self.try_count <= RETRY_LIMIT
    }

    /// A fresh supervisor: no failures yet.
    pub fn new() -> (s: RetrySupervisor)
        ensures
            s.wf(),
            s.try_count == 0,
    {
        RetrySupervisor { try_count: 0 }
    }

    /// Records the end of one capture attempt and decides what follows,
    /// exactly as [`supervise_spec`] says.
    pub fn on_attempt_end(&mut self, attempt_ok: bool, elapsed_millis: u64) -> (d: RetryDecision)
        requires
            old(self).wf(),
        ensures
            final(self).wf(),
            (d, final(self).try_count) == supervise_spec(
                old(self).try_count,
                attempt_ok,
                elapsed_millis,
            ),
    {
        if attempt_ok {
            RetryDecision::Succeeded
        } else if elapsed_millis > RETRY_RESET_MILLIS {
            self.try_count = 0;
            RetryDecision::RetryAfterDelay
        } else if self.try_count >= RETRY_LIMIT {
            RetryDecision::TerminalFailure
        } else {
            self.try_count = self.try_count + 1;
            RetryDecision::RetryAfterDelay
        }
    }
}

/// The ring length for a device frame rate: about two seconds of
/// capture, rounded to the nearest frame.
pub open spec fn ring_len_spec(fps_millis: u64) -> int {
    ((RING_SECONDS * fps_millis + 500) as int) / 1000
}

/// The full-clip frame count for a device frame rate: about four
/// minutes of capture, rounded to the nearest frame.
pub open spec fn clip_len_spec(fps_millis: u64) -> int {
    ((CLIP_SECONDS * fps_millis + 500) as int) / 1000
}

/// The rate a chunk is encoded at: the device rate rounded to whole
/// frames per second.
pub open spec fn frame_rate_spec(fps_millis: u64) -> int {
    ((fps_millis + 500) as int) / 1000
}

/// What one capture step asks the caller to carry out.
pub struct StepEffects {
    /// The frame files due on disk: one completed ring cycle of the
    /// active chunk, or empty.
    pub writes: Vec<WriteCmd>,
    /// When a clip completed: the encoder invocation finalizing it.
    pub finalize: Option<EncodeJob>,
    /// When a clip completed: the fresh chunk directory to create.
    pub new_chunk_dir: Option<String>,
    /// When a clip completed: every frame the finalized chunk's writer
    /// was handed, in write order.
    pub chunk_files: Ghost<Seq<FrameV>>,
}

/// The per-camera capture engine: the ring buffer, the chunk counters,
/// and the active chunk writer.
pub struct CaptureEngine {
    /// The index of the device this engine captures from.
    pub device_idx: i32,
    /// Whether completed ring cycles are recorded to disk.
    pub recording: bool,
    /// The root directory chunks are created under.
    pub recordings_dir: String,
    /// The ring of the most recent frames, one slot per frame.
    pub ring: Vec<Frame>,
    /// The ring's length: about two seconds of frames.
    pub ring_len: usize,
    /// Frames per clip: when the position reaches it, the chunk rotates.
    pub clip_len: usize,
    /// The position of the next frame within the current clip.
    pub frame_idx: usize,
    /// The next frame's slot within the current ring cycle.
    pub cycle_pos: usize,
    /// The rate chunks are encoded at.
    pub frame_rate: usize,
    /// The width frames are scaled to before this engine sees them.
    pub target_width: u32,
    /// The height frames are scaled to before this engine sees them.
    pub target_height: u32,
    /// The writer of the active chunk; present exactly when recording.
    pub writer: Option<VideoWriter>,
    /// Every frame captured for the current chunk, in order.
    pub chunk_hist: Ghost<Seq<FrameV>>,
    /// The completed ring cycles already handed to the writer, in order.
    pub batches: Ghost<Seq<Seq<FrameV>>>,
}

impl CaptureEngine {
    /// The prefix of the chunk's history that the completed batches
    /// cover.
    pub open spec fn flushed_prefix(self) -> Seq<FrameV> {
        self.chunk_hist@.take(self.batches@.len() * self.ring_len)
    }

    /// The next step completes a ring cycle.
    pub open spec fn completes_cycle(self) -> bool {
        self.cycle_pos + 1 == self.ring_len
    }

    /// The next step completes the clip.
    pub open spec fn completes_clip(self) -> bool {
        self.frame_idx + 1 == self.clip_len
    }

    /// The engine's invariant.
    pub open spec fn wf(self) -> bool {
        &&& 2 <= self.ring_len <= self.clip_len
        &&& self.ring_len <= 2000
        &&& self.clip_len <= 240000
        &&& self.ring@.len() == self.ring_len
        &&& self.frame_idx < self.clip_len
        &&& self.cycle_pos < self.ring_len
        &&& self.frame_idx == self.batches@.len() * self.ring_len + self.cycle_pos
        &&& self.chunk_hist@.len() == self.frame_idx
        &&& forall|k: int|
            0 <= k < self.batches@.len() ==> #[trigger] self.batches@[k] == self.chunk_hist@
                .subrange(k * self.ring_len, k * self.ring_len + self.ring_len)
        &&& forall|j: int|
            0 <= j < self.cycle_pos ==> #[trigger] self.ring@[j]@ == self.chunk_hist@[self.batches@
                .len() * self.ring_len + j]
        &&& (self.writer is Some <==> self.recording)
        &&& (self.writer is Some ==> {
            let w = self.writer->Some_0;
            &&& w.wf()
            &&& w.frame_rate == self.frame_rate
            &&& w.files@ == self.flushed_prefix()
        })
    }

    /// Builds the engine for one device once the device has been opened
    /// and its frame rate and native size queried. A device reporting
    /// less than one frame per second is rejected. When recording is
    /// enabled, the first chunk is begun at once, named after `now`;
    /// creating its directory on disk is the caller's part.
    pub fn new(
        config: &VideoDeviceConfig,
        recordings_dir: String,
        fps_millis: u64,
        native_width: u32,
        native_height: u32,
        now: &DateStamp,
    ) -> (r: Result<CaptureEngine, CamError>)
        requires
            fps_millis <= MAX_FPS_MILLIS,
            native_width >= 1,
        ensures
            r is Err <==> fps_millis < MIN_FPS_MILLIS,
            r is Err ==> r->Err_0 == (CamError::FpsBelowMinimum { device: config.idx }),
            r is Ok ==> ({
                let e = r->Ok_0;
                &&& e.wf()
                &&& e.device_idx == config.idx
                &&& e.recording == config.recording.enabled
                &&& e.recordings_dir@ == recordings_dir@
                &&& e.ring_len == ring_len_spec(fps_millis)
                &&& e.clip_len == clip_len_spec(fps_millis)
                &&& e.frame_rate == frame_rate_spec(fps_millis)
                &&& e.frame_idx == 0
                &&& e.chunk_hist@.len() == 0
                &&& e.batches@.len() == 0
                &&& e.target_width == target_width_spec(
                    native_width as int,
                    config.max_resolution_width,
                )
                &&& e.target_height == target_height_spec(
                    native_width as int,
                    native_height as int,
                    config.max_resolution_width,
                )
                &&& (e.recording ==> e.writer is Some && (e.writer->Some_0).path@
                    == chunk_path_rep(recordings_dir@, config.idx as int, *now))
            }),
    {
        if fps_millis < MIN_FPS_MILLIS {
            return Err(CamError::FpsBelowMinimum { device: config.idx });
        }
        let ring_len = ((fps_millis * RING_SECONDS + 500) / 1000) as usize;
        let clip_len = ((fps_millis * CLIP_SECONDS + 500) / 1000) as usize;
        let frame_rate = ((fps_millis + 500) / 1000) as usize;
        let (target_width, target_height) = compute_target_size(
            native_width,
            native_height,
            config.max_resolution_width,
        );
        let mut ring: Vec<Frame> = Vec::new();
        while ring.len() < ring_len
            invariant
                ring@.len() <= ring_len,
            decreases ring_len - ring@.len(),
        {
            ring.push(Frame::new_empty());
        }
        let writer: Option<VideoWriter> = if config.recording.enabled {
            Some(make_writer(&recordings_dir, config.idx, frame_rate, now))
        } else {
            None
        };
        let engine = CaptureEngine {
            device_idx: config.idx,
            recording: config.recording.enabled,
            recordings_dir,
            ring,
            ring_len,
            clip_len,
            frame_idx: 0,
            cycle_pos: 0,
            frame_rate,
            target_width,
            target_height,
            writer,
            chunk_hist: Ghost(Seq::empty()),
            batches: Ghost(Seq::empty()),
        };
        proof {
            assert(engine.batches@.len() * engine.ring_len == 0);
            assert(engine.flushed_prefix() =~= Seq::<FrameV>::empty());
        }
        Ok(engine)
    }

    /// The directory of the active chunk, when recording.
    pub fn current_chunk_dir(&self) -> (r: Option<String>)
        ensures
            r is Some <==> self.writer is Some,
            r is Some ==> r->Some_0@ == (self.writer->Some_0).path@,
    {
        match &self.writer {
            Some(w) => Some(w.path.clone()),
            None => None,
        }
    }

    /// Takes the next captured frame, already scaled to the target
    /// size: publishes it to the frame slot, stores it in the ring, and
    /// reports what recording work is now due. When a ring cycle
    /// completes while recording, the cycle's frames are appended to
    /// the active chunk, in capture order, under contiguous frame
    /// numbers. When the clip completes, the chunk is finalized and a
    /// fresh chunk named after `now` is begun.
    pub fn step(&mut self, cam: &mut VideoCam, frame: Frame, now: &DateStamp) -> (fx: StepEffects)
        requires
            old(self).wf(),
        ensures
            final(self).wf(),
            final(self).device_idx == old(self).device_idx,
            final(self).recording == old(self).recording,
            final(self).recordings_dir@ == old(self).recordings_dir@,
            final(self).ring_len == old(self).ring_len,
            final(self).clip_len == old(self).clip_len,
            final(self).frame_rate == old(self).frame_rate,
            final(self).target_width == old(self).target_width,
            final(self).target_height == old(self).target_height,
            // the frame slot now shows this frame, under a sequence
            // number that never decreases
            final(cam).frame.frame@ == frame@,
            final(cam).frame.seq >= old(cam).frame.seq,
            old(cam).frame.seq < u64::MAX ==> final(cam).frame.seq == old(cam).frame.seq + 1,
            final(cam).config == old(cam).config,
            final(cam).errored == old(cam).errored,
            // the chunk's history grows by this frame, or restarts on
            // rotation
            !old(self).completes_clip() ==> {
                &&& final(self).frame_idx == old(self).frame_idx + 1
                &&& final(self).chunk_hist@ == old(self).chunk_hist@.push(frame@)
            },
            old(self).completes_clip() ==> {
                &&& final(self).frame_idx == 0
                &&& final(self).chunk_hist@.len() == 0
                &&& final(self).batches@.len() == 0
            },
            !old(self).completes_clip() && old(self).completes_cycle() ==> final(self).batches@
                == old(self).batches@.push(
                old(self).chunk_hist@.push(frame@).subrange(
                    old(self).batches@.len() * old(self).ring_len,
                    old(self).batches@.len() * old(self).ring_len + old(self).ring_len,
                ),
            ),
            !old(self).completes_clip() && !old(self).completes_cycle() ==> final(self).batches@
                == old(self).batches@,
            // a completed cycle while recording is written out: the
            // cycle's frames in capture order, numbered contiguously
            old(self).completes_cycle() && old(self).recording ==> {
                let hist1 = old(self).chunk_hist@.push(frame@);
                let start = old(self).batches@.len() * old(self).ring_len;
                &&& fx.writes@.len() == old(self).ring_len
                &&& forall|i: int|
                    0 <= i < old(self).ring_len ==> {
                        &&& (#[trigger] fx.writes@[i]).frame@ == hist1[start + i]
                        &&& fx.writes@[i].index == start + i
                        &&& fx.writes@[i].path@ == frame_file_rep(
                            (old(self).writer->Some_0).path@,
                            (start + i) as nat,
                        )
                    }
            },
            !(old(self).completes_cycle() && old(self).recording) ==> fx.writes@.len() == 0,
            // rotation: finalize the full chunk and begin a fresh one
            old(self).completes_clip() && old(self).recording ==> {
                &&& fx.finalize is Some
                &&& encode_job_matches(fx.finalize->Some_0, old(self).writer->Some_0)
                &&& fx.new_chunk_dir is Some
                &&& fx.new_chunk_dir->Some_0@ == chunk_path_rep(
                    old(self).recordings_dir@,
                    old(self).device_idx as int,
                    *now,
                )
                &&& final(self).writer is Some
                &&& (final(self).writer->Some_0).path@ == chunk_path_rep(
                    old(self).recordings_dir@,
                    old(self).device_idx as int,
                    *now,
                )
                &&& (final(self).writer->Some_0).files@.len() == 0
            },
            !(old(self).completes_clip() && old(self).recording) ==> {
                &&& fx.finalize is None
                &&& fx.new_chunk_dir is None
            },
            !old(self).completes_clip() && old(self).recording
                ==> (final(self).writer->Some_0).path@ == (old(self).writer->Some_0).path@,
            // what the finalized chunk was handed, in order
            old(self).completes_clip() && old(self).recording && old(self).completes_cycle()
                ==> fx.chunk_files@ == old(self).chunk_hist@.push(frame@).take(
                (old(self).batches@.len() + 1) * old(self).ring_len,
            ),
            old(self).completes_clip() && old(self).recording && !old(self).completes_cycle()
                ==> fx.chunk_files@ == old(self).chunk_hist@.push(frame@).take(
                old(self).batches@.len() * old(self).ring_len,
            ),
            // a clip that is a whole number of ring cycles is finalized
            // with exactly every frame captured for it: no duplicate,
            // no gap, no frame of any other chunk
            ({
                &&& old(self).completes_clip()
                &&& old(self).recording
                &&& old(self).completes_cycle()
                &&& old(self).clip_len == (old(self).batches@.len() + 1) * old(self).ring_len
            }) ==> fx.chunk_files@ == old(self).chunk_hist@.push(frame@),
    {
        let ghost pre = *self;
        let ghost hist1 = self.chunk_hist@.push(frame@);
        // publish to the shared frame slot
        if cam.frame.seq < u64::MAX {
            cam.frame.seq = cam.frame.seq + 1;
        }
        cam.frame.frame = frame.clone();
        // store into the ring
        let pos = self.cycle_pos;
        proof {
            self.chunk_hist@ = self.chunk_hist@.push(frame@);
        }
        self.ring.set(pos, frame);
        self.cycle_pos = self.cycle_pos + 1;
        self.frame_idx = self.frame_idx + 1;

        let mut writes: Vec<WriteCmd> = Vec::new();
        let ghost b = pre.batches@.len();
        let ghost l = pre.ring_len as int;
        if self.cycle_pos == self.ring_len {
            // one full ring cycle: hand it to the writer
            self.cycle_pos = 0;
            proof {
                self.batches@ = self.batches@.push(hist1.subrange(b * l, b * l + l));
                assert((b + 1) * l == b * l + l) by (nonlinear_arith);
                assert forall|j: int| 0 <= j < l implies self.ring@[j]@ == hist1[b * l + j] by {
                    if j < l - 1 {
                        assert(pre.ring@[j]@ == pre.chunk_hist@[b * l + j]);
                    }
                }
            }
            match &mut self.writer {
                Some(w) => {
                    proof {
                        assert(w.files@.len() == b * l) by {
                            assert(b * l <= pre.chunk_hist@.len()) by (nonlinear_arith)
                                requires
                                    pre.chunk_hist@.len() == b * l + pre.cycle_pos,
                                    pre.cycle_pos >= 0,
                            ;
                        }
                    }
                    writes = save_video_chunk(w, &self.ring);
                    proof {
                        assert(frames_view(self.ring@) =~= hist1.subrange(b * l, b * l + l));
                        assert(w.files@ =~= hist1.take((b + 1) * l));
                    }
                },
                None => {},
            }
        }

        let mut finalize: Option<EncodeJob> = None;
        let mut new_chunk_dir: Option<String> = None;
        let ghost chunk_files = if self.writer is Some {
            (self.writer->Some_0).files@
        } else {
            Seq::empty()
        };
        if self.frame_idx == self.clip_len {
            // the clip is complete: finalize this chunk, begin the next
            self.frame_idx = 0;
            self.cycle_pos = 0;
            proof {
                self.chunk_hist@ = Seq::empty();
                self.batches@ = Seq::empty();
            }
            let device_idx = self.device_idx;
            let frame_rate = self.frame_rate;
            match &self.writer {
                Some(w) => {
                    finalize = Some(w.finish());
                },
                None => {},
            }
            if self.recording {
                let w = make_writer(&self.recordings_dir, device_idx, frame_rate, now);
                new_chunk_dir = Some(w.path.clone());
                self.writer = Some(w);
            }
            proof {
                assert(self.batches@.len() * self.ring_len == 0);
                assert(self.flushed_prefix() =~= Seq::<FrameV>::empty());
                if pre.recording && pre.completes_cycle() && pre.clip_len == (b + 1) * l {
                    assert(chunk_files == hist1.take((b + 1) * l));
                    assert(hist1.len() == pre.clip_len);
                    assert(hist1.take(hist1.len() as int) =~= hist1);
                }
                if pre.recording && !pre.completes_cycle() {
                    assert(b * l <= pre.chunk_hist@.len()) by (nonlinear_arith)
                        requires
                            pre.chunk_hist@.len() == b * l + pre.cycle_pos,
                            pre.cycle_pos >= 0,
                    ;
                    assert(hist1.take(b * l) =~= pre.chunk_hist@.take(b * l));
                }
            }
        } else {
            proof {
                if !pre.completes_cycle() {
                    assert(self.chunk_hist@.take(b * l) =~= pre.chunk_hist@.take(b * l));
                    assert forall|k: int| 0 <= k < b implies #[trigger] self.batches@[k] == self
                        .chunk_hist@.subrange(k * l, k * l + l) by {
                        assert((k + 1) * l == k * l + l) by (nonlinear_arith);
                        assert(k * l + l <= b * l) by (nonlinear_arith)
                            requires
                                0 <= k < b,
                                l >= 0,
                        ;
                        assert(b * l <= pre.chunk_hist@.len()) by (nonlinear_arith)
                            requires
                                pre.chunk_hist@.len() == b * l + pre.cycle_pos,
                                pre.cycle_pos >= 0,
                        ;
                        assert(self.chunk_hist@.subrange(k * l, k * l + l) =~= pre.chunk_hist@
                            .subrange(k * l, k * l + l));
                    }
                }
            }
        }
        proof {
            if !pre.completes_clip() {
                if pre.completes_cycle() {
                    assert((b + 1) * l == b * l + l) by (nonlinear_arith);
                    assert forall|k: int| 0 <= k < self.batches@.len() implies #[trigger] self
                        .batches@[k] == self.chunk_hist@.subrange(k * l, k * l + l) by {
                        assert((k + 1) * l == k * l + l) by (nonlinear_arith);
                        if k < b {
                            assert(k * l + l <= b * l) by (nonlinear_arith)
                                requires
                                    0 <= k < b,
                                    l >= 0,
                            ;
                            assert(b * l <= pre.chunk_hist@.len()) by (nonlinear_arith)
                                requires
                                    pre.chunk_hist@.len() == b * l + pre.cycle_pos,
                                    pre.cycle_pos >= 0,
                            ;
                            assert(self.chunk_hist@.subrange(k * l, k * l + l) =~= pre.chunk_hist@
                                .subrange(k * l, k * l + l));
                        }
                    }
                }
            }
        }
        StepEffects { writes, finalize, new_chunk_dir, chunk_files: Ghost(chunk_files) }
    }
}

/// Flattening batches that are consecutive same-length windows of a
/// history yields exactly the prefix of the history they cover.
proof fn lemma_flatten_of_slices(hist: Seq<FrameV>, batches: Seq<Seq<FrameV>>, l: int)
    requires
        l >= 1,
        batches.len() * l <= hist.len(),
        forall|k: int|
            0 <= k < batches.len() ==> #[trigger] batches[k] == hist.subrange(k * l, k * l + l),
    ensures
        batches.flatten() == hist.take(batches.len() * l),
    decreases batches.len(),
{
    if batches.len() == 0 {
        assert(batches.flatten() =~= hist.take(0));
    } else {
        let m = batches.len() - 1;
        assert(batches.len() * l == m * l + l) by (nonlinear_arith)
            requires
                m == batches.len() - 1,
        ;
        assert(m * l >= 0) by (nonlinear_arith)
            requires
                m >= 0,
                l >= 1,
        ;
        lemma_flatten_of_slices(hist, batches.drop_last(), l);
        batches.drop_last().lemma_flatten_push(batches.last());
        assert(batches.drop_last().push(batches.last()) =~= batches);
        assert(hist.take(m * l) + hist.subrange(m * l, m * l + l) =~= hist.take(m * l + l));
    }
}

/// Within one chunk, the completed batches are pairwise disjoint
/// windows of the captured sequence — batch `k` holds exactly frames
/// `k·L .. k·L + L`, in capture order — and their concatenation in
/// chunk order reconstructs the captured prefix they cover, with no
/// duplicate and no missing frame.
pub proof fn lemma_batches_reconstruct(e: CaptureEngine)
    requires
        e.wf(),
    ensures
        forall|k: int|
            0 <= k < e.batches@.len() ==> #[trigger] e.batches@[k] == e.chunk_hist@.subrange(
                k * e.ring_len,
                k * e.ring_len + e.ring_len,
            ),
        e.batches@.flatten() == e.flushed_prefix(),
{
    assert(e.batches@.len() * e.ring_len <= e.chunk_hist@.len()) by (nonlinear_arith)
        requires
            e.chunk_hist@.len() == e.batches@.len() * e.ring_len + e.cycle_pos,
            e.cycle_pos >= 0,
    ;
    lemma_flatten_of_slices(e.chunk_hist@, e.batches@, e.ring_len as int);
}

/// Creates the writer for a fresh chunk of `device`, in a directory
/// named after `now` under the recordings root.
fn make_writer(recordings_dir: &String, device: i32, frame_rate: usize, now: &DateStamp) -> (w:
    VideoWriter)
    ensures
        w.wf(),
        w.frame_rate == frame_rate,
        w.frame_idx == 0,
        w.files@ == Seq::<FrameV>::empty(),
        w.path@ == chunk_path_rep(recordings_dir@, device as int, *now),
{
    let path = get_video_chunk_path(recordings_dir.as_str(), device, now);
    proof {
        crate::clock::lemma_chunk_path_shape(recordings_dir@, device as int, *now);
    }
    VideoWriter::new(path, frame_rate)
}

/// Four consecutive failures, each ending within the reset window,
/// leave three retries and then a terminal failure at the fourth.
pub proof fn lemma_retry_terminal_after_four(e1: u64, e2: u64, e3: u64, e4: u64)
    requires
        e1 <= RETRY_RESET_MILLIS,
        e2 <= RETRY_RESET_MILLIS,
        e3 <= RETRY_RESET_MILLIS,
        e4 <= RETRY_RESET_MILLIS,
    ensures
        ({
            let (d1, c1) = supervise_spec(0, false, e1);
            let (d2, c2) = supervise_spec(c1, false, e2);
            let (d3, c3) = supervise_spec(c2, false, e3);
            let (d4, c4) = supervise_spec(c3, false, e4);
            &&& d1 == RetryDecision::RetryAfterDelay
            &&& d2 == RetryDecision::RetryAfterDelay
            &&& d3 == RetryDecision::RetryAfterDelay
            &&& d4 == RetryDecision::TerminalFailure
        }),
{
}

/// Three rapid failures followed by a failure whose attempt outlived
/// the reset window: the counter clears and retrying continues.
pub proof fn lemma_retry_reset_after_gap(e1: u64, e2: u64, e3: u64, e4: u64)
    requires
        e1 <= RETRY_RESET_MILLIS,
        e2 <= RETRY_RESET_MILLIS,
        e3 <= RETRY_RESET_MILLIS,
        e4 > RETRY_RESET_MILLIS,
    ensures
        ({
            let (d1, c1) = supervise_spec(0, false, e1);
            let (d2, c2) = supervise_spec(c1, false, e2);
            let (d3, c3) = supervise_spec(c2, false, e3);
            let (d4, c4) = supervise_spec(c3, false, e4);
            &&& d3 == RetryDecision::RetryAfterDelay
            &&& d4 == RetryDecision::RetryAfterDelay
            &&& c4 == 0
        }),
{
}

} // verus!
