//! Path/change detection for hot reload.
//!
//! A `WatchSet` holds a glob-style path pattern together with the most
//! recently observed maximum modification time over all matching files.
//! `has_changed` rescans the filesystem, records the new maximum, and
//! reports whether it differs from the previous one. The enumeration of
//! the filesystem is trusted; the maximum computation and the change
//! decision are verified.

use vstd::prelude::*;

verus! {

/// Whether the detector reports a change when the recorded maximum was
/// `previous` and the fresh scan found `scanned`: exactly when the two
/// maxima differ, including the transitions between "no files" and "at
/// least one file" in either direction.
pub open spec fn detector_fires(previous: Option<u64>, scanned: Option<u64>) -> bool {
    scanned != previous
}

/// The maximum of a sequence of timestamps, `None` when it is empty.
pub open spec fn max_time_of(times: Seq<u64>) -> Option<u64>
    decreases times.len(),
{
    if times.len() == 0 {
        Option::None
    } else {
        match max_time_of(times.drop_last()) {
            Option::None => Option::Some(times.last()),
            Option::Some(m) => if times.last() > m {
                Option::Some(times.last())
            } else {
                Option::Some(m)
            },
        }
    }
}

/// A configured path pattern plus the most recently observed maximum
/// modification time across all files matching it.
pub struct WatchSet {
    /// Glob-style pattern naming the files to watch.
    pub pattern: String,
    /// Maximum modification time, in nanoseconds since the epoch, seen by
    /// the last scan; `None` before the first scan or while no file matches.
    pub recorded: Option<u64>,
}

/// Relies on `glob::glob` and the file metadata calls of std: enumerates
/// the entries matching `pattern` and returns the modification time of each
/// regular file among them, in nanoseconds since the epoch. Directories,
/// unreadable entries and an invalid pattern are skipped, never reported as
/// errors. The result depends on the filesystem, so nothing is promised of it.
#[verifier::external_body]
fn scan_modified_times(pattern: &str) -> (times: Vec<u64>) {
    let paths = match glob::glob(pattern) {
        Ok(paths) => paths,
        Err(_) => return Vec::new(),
    };
    paths
        .flatten()
        .filter_map(|f| f.metadata().ok())
        .filter(|m| !m.is_dir())
        .filter_map(|m| m.modified().ok())
        .filter_map(|t| t.duration_since(std::time::UNIX_EPOCH).ok())
        .map(|d| d.as_nanos() as u64)
        .collect()
}

/// The maximum of `times`, `None` when it is empty.
pub fn latest_of(times: &Vec<u64>) -> (r: Option<u64>)
    ensures
        r == max_time_of(times@),
{
    let mut r: Option<u64> = Option::None;
    let mut i: usize = 0;
    while i < times.len()
        invariant
            i <= times@.len(),
            r == max_time_of(times@.take(i as int)),
        decreases times@.len() - i,
    {
        let t = times[i];
        proof {
            assert(times@.take(i as int + 1).drop_last() =~= times@.take(i as int));
            assert(times@.take(i as int + 1).last() == times@[i as int]);
        }
        r = match r {
            Option::None => Option::Some(t),
            Option::Some(m) => if t > m {
                Option::Some(t)
            } else {
                Option::Some(m)
            },
        };
        i += 1;
    }
    proof {
        assert(times@.take(times@.len() as int) =~= times@);
    }
    r
}

impl WatchSet {
    /// A watch set that has not scanned yet.
    pub fn new(pattern: String) -> (w: WatchSet)
        ensures
            w.pattern == pattern,
            w.recorded is None,
    {
        WatchSet { pattern, recorded: Option::None }
    }

    /// Records a freshly scanned maximum and reports whether it differs
    /// from the previously recorded one.
    pub fn observe(&mut self, scanned: Option<u64>) -> (changed: bool)
        ensures
            final(self).pattern == old(self).pattern,
            final(self).recorded == scanned,
            changed == detector_fires(old(self).recorded, scanned),
    {
        let changed = match (&scanned, &self.recorded) {
            (Option::Some(cur), Option::Some(prev)) => *cur != *prev,
            (Option::None, Option::None) => false,
            _ => true,
        };
        self.recorded = scanned;
        changed
    }

    /// Rescans the watched files, records the new maximum modification
    /// time, and reports whether it differs from the previous one.
    pub fn has_changed(&mut self) -> (changed: bool)
        ensures
            final(self).pattern == old(self).pattern,
            changed == detector_fires(old(self).recorded, final(self).recorded),
    {
        let times = scan_modified_times(self.pattern.as_str());
        let scanned = latest_of(&times);
        self.observe(scanned)
    }
}

/// Law: the detector is idempotent. Once a scan result has been recorded,
/// a second scan that finds the same maximum — as it does when nothing on
/// the filesystem was touched in between — reports no change.
pub proof fn lemma_detector_idempotent(scanned: Option<u64>)
    ensures
        !detector_fires(scanned, scanned),
{
}

} // verus!
