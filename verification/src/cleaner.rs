//! The reaper: one sweep over a snapshot of the recordings tree,
//! deleting every file older than the retention age. A filesystem
//! error anywhere — an unreadable directory, a failed deletion —
//! aborts the current sweep early; the next sweep starts over from the
//! root. Reading the tree and removing the chosen files is the
//! caller's part; the sweep decides, in traversal order, exactly which
//! files go.

use vstd::prelude::*;

verus! {

/// Files older than this many seconds are reaped: two days.
pub const REAP_RETENTION_SECS: u64 = 60 * 60 * 24 * 2;

/// A sweep runs every this many seconds: six hours.
pub const REAP_INTERVAL_SECS: u64 = 60 * 60 * 6;

/// One entry of the recordings tree, as the caller found it on disk.
pub enum FsEntry {
    File {
        /// The entry's name within its directory.
        name: String,
        /// The file's creation time in seconds, where it could be
        /// read; a file without one is never reaped.
        created_secs: Option<u64>,
        /// Whether deleting this file would succeed.
        removable: bool,
    },
    Dir {
        /// The entry's name within its directory.
        name: String,
        /// The directory's entries, or nothing where it could not be
        /// read.
        entries: Option<Vec<FsEntry>>,
    },
}

/// What one sweep did: the files deleted, in traversal order, and
/// whether the sweep ran to completion rather than aborting on a
/// filesystem error.
pub struct SweepOutcome {
    pub deleted: Vec<String>,
    pub completed: bool,
}

/// Whether a file created at `created_secs` is older than the
/// retention age at time `now_secs`. A file whose creation time could
/// not be read, or lies in the future, is not.
pub open spec fn file_expired(created_secs: Option<u64>, now_secs: u64, retention_secs: u64) -> bool {
    match created_secs {
        Option::Some(c) => c + retention_secs < now_secs,
        Option::None => false,
    }
}

/// The sweep over `entries[i..]`, under the directory path `prefix`:
/// the full paths deleted in order, and whether no filesystem error
/// was met. An expired file that cannot be removed, or an unreadable
/// subdirectory, ends the sweep there.
pub open spec fn sweep_from_spec(
    prefix: Seq<char>,
    entries: Seq<FsEntry>,
    i: int,
    now_secs: u64,
    retention_secs: u64,
) -> (Seq<Seq<char>>, bool)
    decreases entries, entries.len() - i,
    via sweep_from_spec_decreases
{
    if i < 0 || i >= entries.len() {
        (Seq::empty(), true)
    } else {
        let head: (Seq<Seq<char>>, bool) = match entries[i] {
            FsEntry::File { name, created_secs, removable } => {
                if file_expired(created_secs, now_secs, retention_secs) {
                    if removable {
                        (seq![prefix + seq!['/'] + name@], true)
                    } else {
                        (Seq::empty(), false)
                    }
                } else {
                    (Seq::empty(), true)
                }
            },
            FsEntry::Dir { name, entries: sub } => match sub {
                Option::Some(v) => sweep_from_spec(
                    prefix + seq!['/'] + name@,
                    v@,
                    0,
                    now_secs,
                    retention_secs,
                ),
                Option::None => (Seq::empty(), false),
            },
        };
        if !head.1 {
            head
        } else {
            let rest = sweep_from_spec(prefix, entries, i + 1, now_secs, retention_secs);
            (head.0 + rest.0, rest.1)
        }
    }
}

#[via_fn]
proof fn sweep_from_spec_decreases(
    prefix: Seq<char>,
    entries: Seq<FsEntry>,
    i: int,
    now_secs: u64,
    retention_secs: u64,
) {
    if 0 <= i < entries.len() {
        let e = entries[i];
        if e is Dir && e->Dir_entries is Some {
            assert(decreases_to!(entries => entries[i]));
            assert(decreases_to!(e => e->Dir_entries));
            assert(decreases_to!(e->Dir_entries => e->Dir_entries->Some_0));
            assert(decreases_to!(e->Dir_entries->Some_0 => (e->Dir_entries->Some_0)@));
        }
    }
}

/// One sweep over the entries of the directory at `path`: deletes, in
/// traversal order, every reachable file whose creation time is more
/// than `retention_secs` before `now_secs`, descending into
/// subdirectories, and stops at the first filesystem error.
pub fn clean_files_older_than(
    path: &str,
    entries: &Vec<FsEntry>,
    now_secs: u64,
    retention_secs: u64,
) -> (out: SweepOutcome)
    ensures
        out.deleted@.map_values(|s: String| s@) == sweep_from_spec(
            path@,
            entries@,
            0,
            now_secs,
            retention_secs,
        ).0,
        out.completed == sweep_from_spec(path@, entries@, 0, now_secs, retention_secs).1,
    decreases entries@,
{
    let ghost whole = sweep_from_spec(path@, entries@, 0, now_secs, retention_secs);
    let mut deleted: Vec<String> = Vec::new();
    let mut i: usize = 0;
    proof {
        assert(Seq::<Seq<char>>::empty() + whole.0 =~= whole.0);
        assert(deleted@.map_values(|s: String| s@) =~= Seq::<Seq<char>>::empty());
    }
    while i < entries.len()
        invariant
            i <= entries@.len(),
            whole == sweep_from_spec(path@, entries@, 0, now_secs, retention_secs),
            whole.0 == deleted@.map_values(|s: String| s@) + sweep_from_spec(
                path@,
                entries@,
                i as int,
                now_secs,
                retention_secs,
            ).0,
            whole.1 == sweep_from_spec(path@, entries@, i as int, now_secs, retention_secs).1,
        decreases entries@.len() - i,
    {
        let ghost before = deleted@.map_values(|s: String| s@);
        let ghost here = sweep_from_spec(path@, entries@, i as int, now_secs, retention_secs);
        match &entries[i] {
            FsEntry::File { name, created_secs, removable } => {
                let expired: bool = match created_secs {
                    Option::Some(c) => now_secs > retention_secs && *c < now_secs
                        - retention_secs,
                    Option::None => false,
                };
                if expired {
                    let mut p = String::from_str(path);
                    p.append("/");
                    p.append(name.as_str());
                    proof {
                        reveal_strlit("/");
                        assert("/"@ =~= seq!['/']);
                        assert(p@ =~= path@ + seq!['/'] + name@);
                    }
                    if *removable {
                        deleted.push(p);
                        proof {
                            assert(deleted@.map_values(|s: String| s@) =~= before + seq![
                                path@ + seq!['/'] + name@,
                            ]);
                            assert(before + here.0 =~= deleted@.map_values(|s: String| s@)
                                + sweep_from_spec(
                                path@,
                                entries@,
                                i as int + 1,
                                now_secs,
                                retention_secs,
                            ).0);
                        }
                    } else {
                        proof {
                            assert(here.0 =~= Seq::<Seq<char>>::empty());
                            assert(before + here.0 =~= before);
                        }
                        return SweepOutcome { deleted, completed: false };
                    }
                } else {
                    proof {
                        assert(before + here.0 =~= before + sweep_from_spec(
                            path@,
                            entries@,
                            i as int + 1,
                            now_secs,
                            retention_secs,
                        ).0);
                    }
                }
            },
            FsEntry::Dir { name, entries: sub } => {
                match sub {
                    Option::Some(v) => {
                        let mut p = String::from_str(path);
                        p.append("/");
                        p.append(name.as_str());
                        proof {
                            reveal_strlit("/");
                            assert("/"@ =~= seq!['/']);
                            assert(p@ =~= path@ + seq!['/'] + name@);
                            let e = entries@[i as int];
                            assert(decreases_to!(entries@ => e));
                            assert(decreases_to!(e => e->Dir_entries));
                            assert(decreases_to!(e->Dir_entries => e->Dir_entries->Some_0));
                            assert(decreases_to!(e->Dir_entries->Some_0 => (
                            e->Dir_entries->Some_0)@));
                        }
                        let mut sub_out = clean_files_older_than(
                            p.as_str(),
                            v,
                            now_secs,
                            retention_secs,
                        );
                        let sub_completed = sub_out.completed;
                        let ghost sub_deleted = sub_out.deleted@.map_values(|s: String| s@);
                        deleted.append(&mut sub_out.deleted);
                        proof {
                            assert(deleted@.map_values(|s: String| s@) =~= before + sub_deleted);
                        }
                        if !sub_completed {
                            proof {
                                assert(here.0 =~= sub_deleted);
                                assert(before + here.0 =~= before + sub_deleted);
                            }
                            return SweepOutcome { deleted, completed: false };
                        }
                        proof {
                            assert(before + here.0 =~= (before + sub_deleted) + sweep_from_spec(
                                path@,
                                entries@,
                                i as int + 1,
                                now_secs,
                                retention_secs,
                            ).0);
                        }
                    },
                    Option::None => {
                        proof {
                            assert(here.0 =~= Seq::<Seq<char>>::empty());
                            assert(before + here.0 =~= before);
                        }
                        return SweepOutcome { deleted, completed: false };
                    },
                }
            },
        }
        i = i + 1;
    }
    SweepOutcome { deleted, completed: true }
}

} // verus!
