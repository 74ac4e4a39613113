//! The library's model of one decoded video frame: its pixel dimensions
//! and its raw bytes. The capture pipeline moves frames around without
//! looking inside the byte payload.

use vstd::prelude::*;

verus! {

/// One decoded frame.
pub struct Frame {
    pub width: u32,
    pub height: u32,
    pub data: Vec<u8>,
}

/// The mathematical value of a frame.
pub ghost struct FrameV {
    pub width: int,
    pub height: int,
    pub data: Seq<u8>,
}

impl View for Frame {
    type V = FrameV;

    open spec fn view(&self) -> FrameV {
        FrameV { width: self.width as int, height: self.height as int, data: self.data@ }
    }
}

/// The views of a sequence of frames.
pub open spec fn frames_view(s: Seq<Frame>) -> Seq<FrameV> {
    s.map_values(|f: Frame| f@)
}

impl Frame {
    /// The placeholder a ring-buffer slot starts out with.
    pub fn new_empty() -> (f: Frame)
        ensures
            f@ == (FrameV { width: 0, height: 0, data: Seq::<u8>::empty() }),
    {
        let f = Frame { width: 0, height: 0, data: Vec::new() };
        proof {
            assert(f@.data =~= Seq::<u8>::empty());
        }
        f
    }
}

impl Clone for Frame {
    /// A clone carries the same dimensions and the same bytes.
    fn clone(&self) -> (r: Self)
        ensures
            r@ == self@,
    {
        let data = self.data.clone();
        proof {
            assert(data@ =~= self.data@);
        }
        Frame { width: self.width, height: self.height, data }
    }
}

} // verus!
