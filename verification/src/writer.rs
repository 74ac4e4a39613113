//! The recording chunk writer. One writer owns one chunk directory and
//! numbers the frames written into it: frame `n` goes to file `<n>.bmp`
//! under the chunk directory, contiguously from 0. Finalizing a chunk
//! yields the external-encoder invocation that turns the numbered frames
//! into one video file and retires the raw directory.
//!
//! The writer itself performs no disk access: each operation returns the
//! exact file write or encoder invocation that is due, and the caller
//! carries it out.

use vstd::prelude::*;
use crate::frame::{Frame, FrameV, frames_view};
use crate::text::{dec_rep, lemma_dec_rep_injective, push_dec_u64};

verus! {

/// The file name of frame number `index` inside a chunk directory.
pub open spec fn frame_file_rep(dir: Seq<char>, index: nat) -> Seq<char> {
    dir + seq!['/'] + dec_rep(index) + ".bmp"@
}

/// One pending frame write: the frame and the exact file it belongs in.
pub struct WriteCmd {
    pub path: String,
    pub index: usize,
    pub frame: Frame,
}

/// The external-encoder invocation that finalizes one chunk, and the raw
/// directory to remove once it has run.
pub struct EncodeJob {
    /// The directory to run the encoder in: the chunk's parent.
    pub working_dir: String,
    pub program: String,
    pub args: Vec<String>,
    /// The raw-frame directory to delete after the encoder has finished.
    pub remove_dir: String,
}

/// What finalizing the chunk of writer `w` yields: run `ffmpeg` in the
/// chunk's parent directory over the numbered frames, at the chunk's
/// frame rate, producing `<chunk name>.mp4`, then remove the raw
/// directory.
pub open spec fn encode_job_matches(job: EncodeJob, w: VideoWriter) -> bool {
    &&& job.working_dir@ == w.parent_dir@
    &&& job.program@ == "ffmpeg"@
    &&& job.args@.len() == 11
    &&& job.args@[0]@ == "-framerate"@
    &&& job.args@[1]@ == dec_rep(w.frame_rate as nat)
    &&& job.args@[2]@ == "-start_number"@
    &&& job.args@[3]@ == "0"@
    &&& job.args@[4]@ == "-i"@
    &&& job.args@[5]@ == w.chunk_name@ + "/%d.bmp"@
    &&& job.args@[6]@ == "-c:v"@
    &&& job.args@[7]@ == "libx264"@
    &&& job.args@[8]@ == "-pix_fmt"@
    &&& job.args@[9]@ == "yuv420p"@
    &&& job.args@[10]@ == w.chunk_name@ + ".mp4"@
    &&& job.remove_dir@ == w.path@
}

/// The writer of one recording chunk.
pub struct VideoWriter {
    /// The chunk directory.
    pub path: String,
    /// The chunk directory's parent.
    pub parent_dir: String,
    /// The last component of the chunk directory.
    pub chunk_name: String,
    /// The number of the next frame file.
    pub frame_idx: usize,
    /// The frame rate the finished clip is encoded at.
    pub frame_rate: usize,
    /// Every frame written into this chunk, in write order.
    pub files: Ghost<Seq<FrameV>>,
}

impl VideoWriter {
    /// The writer's invariant: the counter equals the number of frames
    /// written, and the stored path splits into parent and name.
    pub open spec fn wf(self) -> bool {
        &&& self.frame_idx == self.files@.len()
        &&& self.path@ == self.parent_dir@ + seq!['/'] + self.chunk_name@
        &&& self.chunk_name@.len() > 0
        &&& forall|i: int| 0 <= i < self.chunk_name@.len() ==> self.chunk_name@[i] != '/'
    }

    /// Creates the writer for a fresh chunk directory. The path must
    /// name an entry inside some directory: it contains a separator and
    /// does not end with one.
    pub fn new(path: String, frame_rate: usize) -> (w: VideoWriter)
        requires
            exists|k: int| 0 <= k < path@.len() && path@[k] == '/',
            path@[path@.len() - 1] != '/',
        ensures
            w.wf(),
            w.path@ == path@,
            w.frame_rate == frame_rate,
            w.frame_idx == 0,
            w.files@ == Seq::<FrameV>::empty(),
    {
        let (parent_dir, chunk_name) = split_last_slash(path.as_str());
        VideoWriter {
            path,
            parent_dir,
            chunk_name,
            frame_idx: 0,
            frame_rate,
            files: Ghost(Seq::empty()),
        }
    }

    /// Appends one frame to the chunk: the frame is due in the file
    /// numbered with the current counter, and the counter advances.
    pub fn write(&mut self, frame: &Frame) -> (cmd: WriteCmd)
        requires
            old(self).wf(),
            old(self).frame_idx < usize::MAX,
        ensures
            final(self).wf(),
            final(self).frame_idx == old(self).frame_idx + 1,
            final(self).files@ == old(self).files@.push(frame@),
            final(self).path@ == old(self).path@,
            final(self).parent_dir@ == old(self).parent_dir@,
            final(self).chunk_name@ == old(self).chunk_name@,
            final(self).frame_rate == old(self).frame_rate,
            cmd.path@ == frame_file_rep(old(self).path@, old(self).frame_idx as nat),
            cmd.index == old(self).frame_idx,
            cmd.frame@ == frame@,
    {
        let mut p = self.path.clone();
        p.append("/");
        push_dec_u64(&mut p, self.frame_idx as u64);
        p.append(".bmp");
        let cmd = WriteCmd { path: p, index: self.frame_idx, frame: frame.clone() };
        self.frame_idx = self.frame_idx + 1;
        proof {
            self.files@ = self.files@.push(frame@);
            reveal_strlit("/");
            assert("/"@ =~= seq!['/']);
            assert(cmd.path@ =~= frame_file_rep(old(self).path@, old(self).frame_idx as nat));
        }
        cmd
    }

    /// Finalizes the chunk: the encoder invocation over the numbered
    /// frame files, producing `<chunk name>.mp4` beside the raw
    /// directory, which is to be removed afterwards.
    pub fn finish(&self) -> (job: EncodeJob)
        requires
            self.wf(),
        ensures
            encode_job_matches(job, *self),
    {
        let mut rate = String::new();
        push_dec_u64(&mut rate, self.frame_rate as u64);
        let mut template = self.chunk_name.clone();
        template.append("/%d.bmp");
        let mut out_name = self.chunk_name.clone();
        out_name.append(".mp4");
        let mut args: Vec<String> = Vec::new();
        args.push(String::from_str("-framerate"));
        args.push(rate);
        args.push(String::from_str("-start_number"));
        args.push(String::from_str("0"));
        args.push(String::from_str("-i"));
        args.push(template);
        args.push(String::from_str("-c:v"));
        args.push(String::from_str("libx264"));
        args.push(String::from_str("-pix_fmt"));
        args.push(String::from_str("yuv420p"));
        args.push(out_name);
        EncodeJob {
            working_dir: self.parent_dir.clone(),
            program: String::from_str("ffmpeg"),
            args,
            remove_dir: self.path.clone(),
        }
    }
}

/// Splits a path at its last separator into the parent directory and the
/// final component.
fn split_last_slash(path: &str) -> (parts: (String, String))
    requires
        exists|k: int| 0 <= k < path@.len() && path@[k] == '/',
        path@[path@.len() - 1] != '/',
    ensures
        path@ == parts.0@ + seq!['/'] + parts.1@,
        parts.1@.len() > 0,
        forall|i: int| 0 <= i < parts.1@.len() ==> parts.1@[i] != '/',
{
    let n = path.unicode_len();
    let mut i: usize = n;
    while i > 0
        invariant
            i <= n,
            n == path@.len(),
            exists|k: int| 0 <= k < path@.len() && path@[k] == '/',
            path@[path@.len() - 1] != '/',
            forall|j: int| i <= j < n ==> path@[j] != '/',
        decreases i,
    {
        if path.get_char(i - 1) == '/' {
            let parent = String::from_str(path.substring_char(0, i - 1));
            let name = String::from_str(path.substring_char(i, n));
            proof {
                assert(path@ =~= parent@ + seq!['/'] + name@);
            }
            return (parent, name);
        }
        i = i - 1;
    }
    proof {
        let k = choose|k: int| 0 <= k < path@.len() && path@[k] == '/';
        assert(false);
    }
    (String::new(), String::new())
}

/// Writes one completed ring-buffer cycle into the chunk, in order,
/// under the chunk's single counter: the batch occupies the contiguous
/// run of frame numbers starting at the counter's old value.
pub fn save_video_chunk(video_writer: &mut VideoWriter, frames: &Vec<Frame>) -> (cmds: Vec<
    WriteCmd,
>)
    requires
        old(video_writer).wf(),
        old(video_writer).frame_idx + frames@.len() <= usize::MAX,
    ensures
        final(video_writer).wf(),
        final(video_writer).frame_idx == old(video_writer).frame_idx + frames@.len(),
        final(video_writer).files@ == old(video_writer).files@ + frames_view(frames@),
        final(video_writer).path@ == old(video_writer).path@,
        final(video_writer).parent_dir@ == old(video_writer).parent_dir@,
        final(video_writer).chunk_name@ == old(video_writer).chunk_name@,
        final(video_writer).frame_rate == old(video_writer).frame_rate,
        cmds@.len() == frames@.len(),
        forall|i: int|
            0 <= i < cmds@.len() ==> {
                &&& (#[trigger] cmds@[i]).path@ == frame_file_rep(
                    old(video_writer).path@,
                    (old(video_writer).frame_idx + i) as nat,
                )
                &&& cmds@[i].index == old(video_writer).frame_idx + i
                &&& cmds@[i].frame@ == frames@[i]@
            },
{
    let mut cmds: Vec<WriteCmd> = Vec::new();
    let mut i: usize = 0;
    while i < frames.len()
        invariant
            i <= frames@.len(),
            old(video_writer).frame_idx + frames@.len() <= usize::MAX,
            video_writer.wf(),
            video_writer.frame_idx == old(video_writer).frame_idx + i,
            video_writer.files@ == old(video_writer).files@ + frames_view(frames@.take(i as int)),
            video_writer.path@ == old(video_writer).path@,
            video_writer.parent_dir@ == old(video_writer).parent_dir@,
            video_writer.chunk_name@ == old(video_writer).chunk_name@,
            video_writer.frame_rate == old(video_writer).frame_rate,
            cmds@.len() == i,
            forall|j: int|
                0 <= j < i ==> {
                    &&& (#[trigger] cmds@[j]).path@ == frame_file_rep(
                        old(video_writer).path@,
                        (old(video_writer).frame_idx + j) as nat,
                    )
                    &&& cmds@[j].index == old(video_writer).frame_idx + j
                    &&& cmds@[j].frame@ == frames@[j]@
                },
        decreases frames@.len() - i,
    {
        let cmd = video_writer.write(&frames[i]);
        cmds.push(cmd);
        i = i + 1;
        proof {
            assert(old(video_writer).files@ + frames_view(frames@.take(i as int)) =~= video_writer
                .files@);
        }
    }
    proof {
        assert(frames_view(frames@.take(frames@.len() as int)) =~= frames_view(frames@));
    }
    cmds
}

/// Frame file numbering is injective: within one chunk directory, two
/// distinct frame numbers always name two distinct files.
pub proof fn lemma_frame_file_names_distinct(dir: Seq<char>, i: nat, j: nat)
    requires
        i != j,
    ensures
        frame_file_rep(dir, i) != frame_file_rep(dir, j),
{
    lemma_dec_rep_injective(i, j);
    reveal_strlit(".bmp");
    if frame_file_rep(dir, i) == frame_file_rep(dir, j) {
        let a = dec_rep(i);
        let b = dec_rep(j);
        assert(frame_file_rep(dir, i).len() == dir.len() + 1 + a.len() + ".bmp"@.len());
        assert(frame_file_rep(dir, j).len() == dir.len() + 1 + b.len() + ".bmp"@.len());
        assert(a.len() == b.len());
        assert forall|k: int| 0 <= k < a.len() implies a[k] == b[k] by {
            assert(frame_file_rep(dir, i)[dir.len() + 1 + k] == a[k]);
            assert(frame_file_rep(dir, j)[dir.len() + 1 + k] == b[k]);
        }
        assert(a =~= b);
    }
}

} // verus!
