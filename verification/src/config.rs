//! Configuration of the recording system: the recordings root and one
//! entry per camera device. Loading and saving the configuration file is
//! the caller's concern; the library only holds the values and the rule
//! that collapses duplicate device indices into one session.

use vstd::prelude::*;

verus! {

/// Per-device recording switch.
#[derive(Debug, Clone, Copy, PartialEq, Eq)]
pub struct VideoDeviceRecordingConfig {
    pub enabled: bool,
}

impl Default for VideoDeviceRecordingConfig {
    /// Recording starts out disabled.
    fn default() -> (r: Self)
        ensures
            r == (VideoDeviceRecordingConfig { enabled: false }),
    {
        VideoDeviceRecordingConfig { enabled: false }
    }
}

/// One configured camera device.
#[derive(Debug, Clone, Copy, PartialEq, Eq)]
pub struct VideoDeviceConfig {
    /// The index used to open the device.
    pub idx: i32,
    pub recording: VideoDeviceRecordingConfig,
    /// When set, captured frames are scaled down to at most this width.
    pub max_resolution_width: Option<u16>,
}

impl Default for VideoDeviceConfig {
    /// Device zero, not recording, at native resolution.
    fn default() -> (r: Self)
        ensures
            r == (VideoDeviceConfig {
                idx: 0,
                recording: VideoDeviceRecordingConfig { enabled: false },
                max_resolution_width: None,
            }),
    {
        VideoDeviceConfig {
            idx: 0,
            recording: VideoDeviceRecordingConfig { enabled: false },
            max_resolution_width: None,
        }
    }
}

/// The device list used when the configuration names none: one default
/// device.
pub fn config_video_device_configs_default() -> (r: Vec<VideoDeviceConfig>)
    ensures
        r@.len() == 1,
        r@[0] == (VideoDeviceConfig {
            idx: 0,
            recording: VideoDeviceRecordingConfig { enabled: false },
            max_resolution_width: None,
        }),
{
    let mut r: Vec<VideoDeviceConfig> = Vec::new();
    r.push(VideoDeviceConfig::default());
    r
}

/// The whole configuration.
#[derive(Debug)]
pub struct Config {
    pub video_devices: Vec<VideoDeviceConfig>,
    /// The root directory that recordings are written under.
    pub recordings_dir: String,
}

impl Clone for Config {
    /// A clone carries the same devices and the same recordings root.
    fn clone(&self) -> (r: Self)
        ensures
            r.video_devices@ == self.video_devices@,
            r.recordings_dir@ == self.recordings_dir@,
    {
        let video_devices = self.video_devices.clone();
        proof {
            assert(video_devices@ =~= self.video_devices@);
        }
        Config { video_devices, recordings_dir: self.recordings_dir.clone() }
    }
}

/// The device list with every repeated index dropped: only the first
/// entry with a given index is kept, in order.
pub open spec fn dedup_by_idx(s: Seq<VideoDeviceConfig>) -> Seq<VideoDeviceConfig>
    decreases s.len(),
{
    if s.len() == 0 {
        Seq::empty()
    } else {
        let rest = dedup_by_idx(s.drop_last());
        if exists|j: int| 0 <= j < s.len() - 1 && s[j].idx == s.last().idx {
            rest
        } else {
            rest.push(s.last())
        }
    }
}

/// Whether some element of `seen` equals `idx`.
fn contains_idx(seen: &Vec<i32>, idx: i32) -> (b: bool)
    ensures
        b == exists|j: int| 0 <= j < seen@.len() && seen@[j] == idx,
{
    let mut i: usize = 0;
    while i < seen.len()
        invariant
            i <= seen@.len(),
            forall|j: int| 0 <= j < i ==> seen@[j] != idx,
        decreases seen@.len() - i,
    {
        if seen[i] == idx {
            return true;
        }
        i = i + 1;
    }
    false
}

/// One camera session is made per distinct device index: duplicate
/// indices collapse to the first entry that carries them.
pub fn unique_video_devices(devices: &Vec<VideoDeviceConfig>) -> (r: Vec<VideoDeviceConfig>)
    ensures
        r@ == dedup_by_idx(devices@),
{
    let mut r: Vec<VideoDeviceConfig> = Vec::new();
    let mut seen: Vec<i32> = Vec::new();
    let mut i: usize = 0;
    while i < devices.len()
        invariant
            i <= devices@.len(),
            r@ == dedup_by_idx(devices@.take(i as int)),
            seen@ == devices@.take(i as int).map_values(|c: VideoDeviceConfig| c.idx),
        decreases devices@.len() - i,
    {
        let ghost prefix = devices@.take(i as int);
        let ghost next = devices@.take(i as int + 1);
        proof {
            assert(next.drop_last() =~= prefix);
            assert(next.last() == devices@[i as int]);
        }
        let d = devices[i];
        if !contains_idx(&seen, d.idx) {
            proof {
                assert(forall|j: int|
                    0 <= j < prefix.len() ==> prefix.map_values(|c: VideoDeviceConfig| c.idx)[j]
                        == prefix[j].idx);
                assert(!(exists|j: int| 0 <= j < next.len() - 1 && next[j].idx == next.last().idx));
            }
            r.push(d);
        } else {
            proof {
                let j = choose|j: int|
                    0 <= j < seen@.len() && seen@[j] == devices@[i as int].idx;
                assert(prefix.map_values(|c: VideoDeviceConfig| c.idx)[j] == prefix[j].idx);
                assert(next[j].idx == next.last().idx);
            }
        }
        seen.push(d.idx);
        proof {
            assert(seen@ =~= next.map_values(|c: VideoDeviceConfig| c.idx));
        }
        i = i + 1;
    }
    proof {
        assert(devices@.take(devices@.len() as int) =~= devices@);
    }
    r
}

} // verus!
