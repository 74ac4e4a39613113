//! The error values that the capture, recording and reaping paths report,
//! and the helper that turns a plain message into a sendable error.

use vstd::prelude::*;
use crate::text::{dec_rep_signed, push_dec_i64};

verus! {

/// One failure of the capture, recording or reaping path. Most variants
/// carry the index of the device that the failure is attributed to.
#[derive(Debug, Clone, PartialEq, Eq)]
pub enum CamError {
    /// The device could not be opened.
    DeviceOpen { device: i32 },
    /// The device's frame rate or dimensions could not be read.
    DeviceQuery { device: i32 },
    /// The device reported a frame rate below one frame per second.
    FpsBelowMinimum { device: i32 },
    /// A blocking read of one frame failed.
    DeviceRead { device: i32 },
    /// Scaling a captured frame failed.
    Resize { device: i32 },
    /// Copying a frame into the shared frame slot failed.
    FramePublish { device: i32 },
    /// Writing one frame of a chunk to disk failed.
    FrameWrite { device: i32 },
    /// The external encoder failed or could not be started.
    Encode { device: i32 },
    /// Creating or removing a recording directory failed.
    Filesystem { device: i32 },
    /// A reaper sweep was aborted by a filesystem error.
    ReapSweep,
    /// Any other failure, described by a plain message.
    Message { msg: String },
}

/// The descriptive text of an error.
pub open spec fn err_text(e: CamError) -> Seq<char> {
    match e {
        CamError::DeviceOpen { device } => "Failed to open video device "@ + dec_rep_signed(
            device as int,
        ),
        CamError::DeviceQuery { device } => "Failed to query video device "@ + dec_rep_signed(
            device as int,
        ),
        CamError::FpsBelowMinimum { device } => "fps was less than 1.0 for video device "@
            + dec_rep_signed(device as int),
        CamError::DeviceRead { device } => "Failed to read from video device "@ + dec_rep_signed(
            device as int,
        ),
        CamError::Resize { device } => "Failed to resize frame for video device "@
            + dec_rep_signed(device as int),
        CamError::FramePublish { device } => "Failed to publish frame for video device "@
            + dec_rep_signed(device as int),
        CamError::FrameWrite { device } => "Failed to write frame for video device "@
            + dec_rep_signed(device as int),
        CamError::Encode { device } => "Failed to encode video clip for video device "@
            + dec_rep_signed(device as int),
        CamError::Filesystem { device } => "Filesystem failure for video device "@
            + dec_rep_signed(device as int),
        CamError::ReapSweep => "Failed to clean old files"@,
        CamError::Message { msg } => msg@,
    }
}

impl CamError {
    /// The descriptive text of this error, as the value `err_text` gives.
    pub fn message(&self) -> (r: String)
        ensures
            r@ == err_text(*self),
    {
        match self {
            CamError::DeviceOpen { device } => device_message(
                "Failed to open video device ",
                *device,
            ),
            CamError::DeviceQuery { device } => device_message(
                "Failed to query video device ",
                *device,
            ),
            CamError::FpsBelowMinimum { device } => device_message(
                "fps was less than 1.0 for video device ",
                *device,
            ),
            CamError::DeviceRead { device } => device_message(
                "Failed to read from video device ",
                *device,
            ),
            CamError::Resize { device } => device_message(
                "Failed to resize frame for video device ",
                *device,
            ),
            CamError::FramePublish { device } => device_message(
                "Failed to publish frame for video device ",
                *device,
            ),
            CamError::FrameWrite { device } => device_message(
                "Failed to write frame for video device ",
                *device,
            ),
            CamError::Encode { device } => device_message(
                "Failed to encode video clip for video device ",
                *device,
            ),
            CamError::Filesystem { device } => device_message(
                "Filesystem failure for video device ",
                *device,
            ),
            CamError::ReapSweep => String::from_str("Failed to clean old files"),
            CamError::Message { msg } => msg.clone(),
        }
    }
}

/// A message of the form `<prefix><device index>`.
fn device_message(prefix: &str, device: i32) -> (r: String)
    ensures
        r@ == prefix@ + dec_rep_signed(device as int),
{
    let mut s = String::from_str(prefix);
    push_dec_i64(&mut s, device as i64);
    s
}

/// Wraps a plain message as an error value that can cross threads.
pub fn sendable_anyhow(msg: String) -> (e: CamError)
    ensures
        e == (CamError::Message { msg }),
{
    CamError::Message { msg }
}

} // verus!
