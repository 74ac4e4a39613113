//! Wall-clock timestamps at one-second resolution, and the label a
//! recording chunk directory is named after.

use vstd::prelude::*;
use chrono::{Datelike, Timelike};
use crate::text::{dec_rep_signed, pad2_rep, pad4_rep, push_dec_i64, push_pad2, push_pad4};

verus! {

/// A local wall-clock time, split into its calendar fields.
#[derive(Debug, Clone, Copy, PartialEq, Eq)]
pub struct DateStamp {
    pub year: i32,
    pub month: u8,
    pub day: u8,
    pub hour: u8,
    pub minute: u8,
    pub second: u8,
}

impl DateStamp {
    /// The fields lie in their calendar ranges.
    pub open spec fn wf(self) -> bool {
        &&& 1 <= self.month <= 12
        &&& 1 <= self.day <= 31
        &&& self.hour < 24
        &&& self.minute < 60
        &&& self.second < 60
    }
}

/// A year zero-padded to at least four digits, with a minus sign before
/// the padded magnitude for years before year zero.
pub open spec fn pad4_signed_rep(i: int) -> Seq<char> {
    if i < 0 {
        seq!['-'] + pad4_rep((-i) as nat)
    } else {
        pad4_rep(i as nat)
    }
}

/// The label of a stamp: day, month, year, then hour, minute, second,
/// each zero-padded, as `DD.MM.YYYY-HH.MM.SS`.
pub open spec fn stamp_label_rep(s: DateStamp) -> Seq<char> {
    pad2_rep(s.day as nat) + seq!['.'] + pad2_rep(s.month as nat) + seq!['.'] + pad4_signed_rep(
        s.year as int,
    ) + seq!['-'] + pad2_rep(s.hour as nat) + seq!['.'] + pad2_rep(s.minute as nat) + seq!['.']
        + pad2_rep(s.second as nat)
}

/// Appends a year zero-padded to at least four digits.
fn push_pad4_signed(s: &mut String, i: i64)
    requires
        i64::MIN < i,
    ensures
        final(s)@ == old(s)@ + pad4_signed_rep(i as int),
{
    if i < 0 {
        proof {
            reveal_strlit("-");
            assert("-"@ =~= seq!['-']);
        }
        s.append("-");
        push_pad4(s, (-i) as u64);
        proof {
            assert(old(s)@ + seq!['-'] + pad4_rep((-i) as nat) =~= old(s)@ + pad4_signed_rep(
                i as int,
            ));
        }
    } else {
        push_pad4(s, i as u64);
    }
}

/// Renders the label of `stamp`.
pub fn stamp_label(stamp: &DateStamp) -> (r: String)
    ensures
        r@ == stamp_label_rep(*stamp),
{
    proof {
        reveal_strlit(".");
        reveal_strlit("-");
        assert("."@ =~= seq!['.']);
        assert("-"@ =~= seq!['-']);
    }
    let mut s = String::new();
    push_pad2(&mut s, stamp.day as u64);
    s.append(".");
    push_pad2(&mut s, stamp.month as u64);
    s.append(".");
    push_pad4_signed(&mut s, stamp.year as i64);
    s.append("-");
    push_pad2(&mut s, stamp.hour as u64);
    s.append(".");
    push_pad2(&mut s, stamp.minute as u64);
    s.append(".");
    push_pad2(&mut s, stamp.second as u64);
    proof {
        assert(s@ =~= stamp_label_rep(*stamp));
    }
    s
}

/// The directory of one recording chunk:
/// `<root>/cam-<device>/rec-<stamp label>`.
pub open spec fn chunk_path_rep(root: Seq<char>, device: int, stamp: DateStamp) -> Seq<char> {
    root + "/cam-"@ + dec_rep_signed(device) + "/rec-"@ + stamp_label_rep(stamp)
}

/// Builds the directory path that a chunk created at `stamp` for
/// `device` is recorded under.
pub fn get_video_chunk_path(recordings_dir: &str, device: i32, stamp: &DateStamp) -> (r: String)
    ensures
        r@ == chunk_path_rep(recordings_dir@, device as int, *stamp),
{
    let mut s = String::from_str(recordings_dir);
    s.append("/cam-");
    push_dec_i64(&mut s, device as i64);
    s.append("/rec-");
    let label = stamp_label(stamp);
    s.append(label.as_str());
    proof {
        assert(s@ =~= chunk_path_rep(recordings_dir@, device as int, *stamp));
    }
    s
}

/// A chunk path always holds a separator and never ends with one: its
/// last component is the nonempty `rec-` label, which ends in a digit.
pub proof fn lemma_chunk_path_shape(root: Seq<char>, device: int, stamp: DateStamp)
    ensures
        ({
            let p = chunk_path_rep(root, device, stamp);
            &&& p.len() > root.len()
            &&& p[root.len() as int] == '/'
            &&& p[p.len() - 1] != '/'
        }),
{
    reveal_strlit("/cam-");
    reveal_strlit("/rec-");
    crate::text::lemma_dec_rep_last((-device) as nat);
    crate::text::lemma_dec_rep_last(device as nat);
    crate::text::lemma_dec_rep_last(stamp.second as nat);
    let p = chunk_path_rep(root, device, stamp);
    let label = stamp_label_rep(stamp);
    let sec = pad2_rep(stamp.second as nat);
    assert(sec.len() >= 1);
    assert(label.last() == sec.last());
    assert(sec.last() == crate::text::dec_rep(stamp.second as nat).last());
    assert(p[p.len() - 1] == label.last());
    assert(p[root.len() as int] == "/cam-"@[0]);
}

/// Relies on `chrono::Local::now` and chrono's `Datelike` / `Timelike`
/// accessors, whose documentation promises: month in 1..=12, day in
/// 1..=31, hour in 0..=23, minute and second in 0..=59.
#[verifier::external_body]
fn local_now_stamp() -> (r: DateStamp)
    ensures
        r.wf(),
{
    let now = chrono::Local::now();
    DateStamp {
        year: now.year(),
        month: now.month() as u8,
        day: now.day() as u8,
        hour: now.hour() as u8,
        minute: now.minute() as u8,
        second: now.second() as u8,
    }
}

/// The local wall-clock time now, at one-second resolution.
pub fn local_now() -> (r: DateStamp)
    ensures
        r.wf(),
{
    local_now_stamp()
}

} // verus!
