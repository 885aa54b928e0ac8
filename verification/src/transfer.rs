//! Byte-level progress accounting of a streaming download. The caller's
//! shell copies the stream in fixed-size chunks and records each chunk
//! here; after every chunk it reports the pair this tracker returns to the
//! progress sink, so the sink's view of a file is exactly the tracker's.

use vstd::prelude::*;
use crate::models::DownloadedFile;

verus! {

/// The running state of one file's transfer: the manifest-declared total
/// and the bytes copied so far.
pub struct Transfer {
    pub filename: String,
    pub total: u64,
    pub done: u64,
}

/// The sum of a sequence of chunk sizes.
pub open spec fn sum_chunks(cs: Seq<u64>) -> int
    decreases cs.len(),
{
    if cs.len() == 0 {
        0
    } else {
        sum_chunks(cs.drop_last()) + cs.last()
    }
}

impl Transfer {
    /// A transfer that has copied nothing yet, against the
    /// manifest-declared size.
    pub fn new(filename: String, total: u64) -> (t: Transfer)
        ensures
            t.filename@ == filename@,
            t.total == total,
            t.done == 0,
    {
        Transfer { filename, total, done: 0 }
    }

    /// Records one copied chunk and returns what the progress sink is told:
    /// the bytes copied so far and the manifest-declared total. The count
    /// never decreases.
    pub fn record_chunk(&mut self, n: u64) -> (report: (u64, u64))
        requires
            old(self).done + n <= u64::MAX,
        ensures
            final(self).filename@ == old(self).filename@,
            final(self).total == old(self).total,
            final(self).done == old(self).done + n,
            final(self).done >= old(self).done,
            report.0 == final(self).done,
            report.1 == final(self).total,
    {
        self.done = self.done + n;
        (self.done, self.total)
    }

    /// Whether the copied bytes have reached the manifest-declared size.
    pub fn is_complete(&self) -> (r: bool)
        ensures
            r == (self.done == self.total),
    {
        self.done == self.total
    }

    /// The record of the finished transfer: the file's name, where it was
    /// written, and the manifest-declared size.
    pub fn finish(self, local_path: String) -> (d: DownloadedFile)
        ensures
            d.filename@ == self.filename@,
            d.local_path@ == local_path@,
            d.size == self.total,
    {
        DownloadedFile { filename: self.filename, local_path, size: self.total }
    }
}

/// Monotonicity of progress: over any sequence of recorded chunks, the
/// count reported after `j` chunks never exceeds the count reported after
/// `k >= j` chunks, so the sink sees a non-decreasing sequence of byte
/// counts whose last value is the sum of all chunks.
pub proof fn lemma_progress_monotone(cs: Seq<u64>, j: int, k: int)
    requires
        0 <= j <= k <= cs.len(),
    ensures
        sum_chunks(cs.take(j)) <= sum_chunks(cs.take(k)),
    decreases k - j,
{
    if j < k {
        assert(cs.take(j + 1).drop_last() =~= cs.take(j));
        assert(cs.take(j + 1).last() == cs[j]);
        lemma_progress_monotone(cs, j + 1, k);
    }
}

/// The last report of a transfer is the sum of everything recorded: taking
/// all chunks is the whole sequence.
pub proof fn lemma_progress_final(cs: Seq<u64>)
    ensures
        sum_chunks(cs.take(cs.len() as int)) == sum_chunks(cs),
{
    assert(cs.take(cs.len() as int) =~= cs);
}

} // verus!
