//! Book-keeping of the pre-extraction of a group's videos before a run: which
//! videos were decoded, which failed and why, and when the work is over. The
//! worker thread and its channel belong to the application.

use std::collections::HashSet;
use vstd::prelude::*;

verus! {

broadcast use {
    vstd::std_specs::hash::group_hash_axioms,
    vstd::std_specs::hash::axiom_usize_obeys_hash_table_key_model,
    vstd::std_specs::hash::axiom_random_state_builds_valid_hashers,
};

/// How far the pre-extraction of `total` planned videos has come.
pub struct PreloadProgress {
    pub total: usize,
    pub processed: usize,
    pub succeeded: HashSet<usize>,
    pub failures: Vec<(String, String)>,
}

/// `path: error` for one failed video.
pub open spec fn failure_line(f: (String, String)) -> Seq<char> {
    f.0@ + ": "@ + f.1@
}

/// The failure lines joined with `\n` between them.
pub open spec fn failure_lines(fs: Seq<(String, String)>) -> Seq<char>
    decreases fs.len(),
{
    if fs.len() == 0 {
        Seq::empty()
    } else if fs.len() == 1 {
        failure_line(fs[0])
    } else {
        failure_lines(fs.drop_last()) + "\n"@ + failure_line(fs.last())
    }
}

/// What is reported when no video could be prepared.
pub open spec fn failure_report(fs: Seq<(String, String)>) -> Seq<char> {
    if fs.len() == 0 {
        "No videos could be prepared."@
    } else {
        "No videos could be prepared.\n"@ + failure_lines(fs)
    }
}

impl PreloadProgress {
    /// The indices of the videos whose segments were decoded.
    pub open spec fn succeeded_set(&self) -> Set<usize> {
        self.succeeded@
    }

    /// The failures so far, in the order they came.
    pub open spec fn failure_list(&self) -> Seq<(String, String)> {
        self.failures@
    }

    /// Nothing done yet of `total` planned videos.
    pub fn new(total: usize) -> (r: Self)
        ensures
            r.total == total,
            r.processed == 0,
            r.succeeded_set() == Set::<usize>::empty(),
            r.failure_list().len() == 0,
    {
        PreloadProgress {
            total,
            processed: 0,
            succeeded: HashSet::new(),
            failures: Vec::new(),
        }
    }

    /// The segments of the video at `index` were decoded.
    pub fn segments_ready(&mut self, index: usize)
        ensures
            final(self).succeeded_set() == old(self).succeeded_set().insert(index),
            final(self).failure_list() == old(self).failure_list(),
            final(self).total == old(self).total,
            final(self).processed == old(self).processed,
    {
        self.succeeded.insert(index);
    }

    /// The video at `path` failed to decode with `error`.
    pub fn video_failed(&mut self, path: String, error: String)
        ensures
            final(self).failure_list() == old(self).failure_list().push((path, error)),
            final(self).succeeded_set() == old(self).succeeded_set(),
            final(self).total == old(self).total,
            final(self).processed == old(self).processed,
    {
        self.failures.push((path, error));
    }

    /// One more video was processed, successfully or not.
    pub fn video_done(&mut self)
        requires
            old(self).processed < usize::MAX,
        ensures
            final(self).processed == old(self).processed + 1,
            final(self).total == old(self).total,
            final(self).succeeded_set() == old(self).succeeded_set(),
            final(self).failure_list() == old(self).failure_list(),
    {
        self.processed = self.processed + 1;
    }

    /// The work is over: the worker is gone, or every planned video was processed.
    pub fn is_finished(&self, disconnected: bool) -> (r: bool)
        ensures
            r == (disconnected || self.processed >= self.total),
    {
        disconnected || self.processed >= self.total
    }

    /// Whether the video at `index` was decoded.
    pub fn has_succeeded(&self, index: usize) -> (r: bool)
        ensures
            r == self.succeeded_set().contains(index),
    {
        self.succeeded.contains(&index)
    }

    /// The indices below `count` of the decoded videos, in increasing order.
    pub fn prepared_indices(&self, count: usize) -> (r: Vec<usize>)
        ensures
            forall|i: int, j: int| 0 <= i < j < r@.len() ==> r@[i] < r@[j],
            forall|k: usize| #[trigger] r@.contains(k) <==> (k < count && self.succeeded_set().contains(k)),
    {
        let mut out: Vec<usize> = Vec::new();
        let mut i: usize = 0;
        while i < count
            invariant
                0 <= i <= count,
                forall|a: int, b: int| 0 <= a < b < out@.len() ==> out@[a] < out@[b],
                forall|a: int| 0 <= a < out@.len() ==> out@[a] < i,
                forall|k: usize| #[trigger] out@.contains(k) <==> (k < i && self.succeeded_set().contains(k)),
            decreases count - i,
        {
            let ghost prev = out@;
            if self.has_succeeded(i) {
                out.push(i);
                proof {
                    broadcast use vstd::seq_lib::group_seq_properties;

                    assert(out@ == prev.push(i));
                }
            }
            proof {
                broadcast use vstd::seq_lib::group_seq_properties;

                assert forall|k: usize| #[trigger] out@.contains(k) <==> (k < i + 1
                    && self.succeeded_set().contains(k)) by {
                    if k == i && self.succeeded_set().contains(k) {
                        assert(out@.contains(k));
                    }
                }
            }
            i = i + 1;
        }
        out
    }

    /// What to report when no video could be prepared: the failures, one per line.
    pub fn failure_report(&self) -> (r: String)
        ensures
            r@ == failure_report(self.failure_list()),
    {
        let n = self.failures.len();
        if n == 0 {
            proof {
                reveal_strlit("No videos could be prepared.");
            }
            return String::from_str("No videos could be prepared.");
        }
        let mut out = String::from_str("No videos could be prepared.\n");
        let ghost head = out@;
        let mut lines = String::new();
        let mut i: usize = 0;
        while i < n
            invariant
                n == self.failures@.len(),
                0 <= i <= n,
                lines@ == failure_lines(self.failures@.take(i as int)),
            decreases n - i,
        {
            if i > 0 {
                lines.append("\n");
            }
            lines.append(self.failures[i].0.as_str());
            lines.append(": ");
            lines.append(self.failures[i].1.as_str());
            proof {
                reveal_strlit("\n");
                reveal_strlit(": ");
                let fs = self.failures@.take(i + 1);
                assert(fs.drop_last() =~= self.failures@.take(i as int));
                assert(fs.last() == self.failures@[i as int]);
                assert(lines@ =~= failure_lines(fs));
            }
            i = i + 1;
        }
        out.append(lines.as_str());
        proof {
            reveal_strlit("No videos could be prepared.\n");
            assert(self.failures@.take(n as int) =~= self.failures@);
        }
        out
    }
}

} // verus!
