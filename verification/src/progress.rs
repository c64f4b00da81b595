//! Counters of files, bytes and time, one set for each file type.

use vstd::prelude::*;
use crate::cli::{FileType, PerFileType};
use crate::outcome::FileEntry;

verus! {

/// The progress made on the files of one type. Every counter wraps on
/// overflow, as a shared atomic counter does.
#[derive(Debug, Clone, Copy, PartialEq, Eq, Structural)]
pub struct ConversionProgress {
    /// Files of this type in the work list
    pub total: usize,
    /// Files successfully processed
    pub processed: usize,
    /// Files that encountered errors during processing
    pub errored: usize,
    /// Files that were converted, but deemed inefficient (e.g., larger output size),
    /// and then reverted to the original format
    pub inefficient: usize,
    /// Total bytes of input files still counted as work
    pub total_bytes: u64,
    /// Total bytes of input files processed so far
    pub input_bytes: u64,
    /// Total bytes of output files generated so far
    pub output_bytes: u64,
    /// Total elapsed time in milliseconds
    pub elapsed: u64,
}

impl Default for ConversionProgress {
    fn default() -> (r: Self)
        ensures
            r == ConversionProgress::zero(),
    {
        ConversionProgress {
            total: 0,
            processed: 0,
            errored: 0,
            inefficient: 0,
            total_bytes: 0,
            input_bytes: 0,
            output_bytes: 0,
            elapsed: 0,
        }
    }
}

impl ConversionProgress {
    /// The counters before any file is known.
    pub open spec fn zero() -> Self {
        ConversionProgress {
            total: 0,
            processed: 0,
            errored: 0,
            inefficient: 0,
            total_bytes: 0,
            input_bytes: 0,
            output_bytes: 0,
            elapsed: 0,
        }
    }

    /// The counters after one more file was converted.
    pub open spec fn after_add(self, input: u64, output: u64, elapsed: u64) -> Self {
        ConversionProgress {
            input_bytes: self.input_bytes.wrapping_add(input),
            output_bytes: self.output_bytes.wrapping_add(output),
            elapsed: self.elapsed.wrapping_add(elapsed),
            processed: self.processed.wrapping_add(1),
            ..self
        }
    }

    /// The counters after one more file failed.
    pub open spec fn after_errored(self, size: u64) -> Self {
        ConversionProgress {
            errored: self.errored.wrapping_add(1),
            total_bytes: self.total_bytes.wrapping_sub(size),
            ..self
        }
    }

    /// The counters after one more file was found inefficient.
    pub open spec fn after_inefficient(self, size: u64) -> Self {
        ConversionProgress {
            inefficient: self.inefficient.wrapping_add(1),
            total_bytes: self.total_bytes.wrapping_sub(size),
            ..self
        }
    }

    /// Counts a converted file of `input` bytes that became `output` bytes
    /// in `elapsed` milliseconds.
    pub fn add(&mut self, input: u64, output: u64, elapsed: u64)
        ensures
            *final(self) == old(self).after_add(input, output, elapsed),
    {
        self.input_bytes = self.input_bytes.wrapping_add(input);
        self.output_bytes = self.output_bytes.wrapping_add(output);
        self.elapsed = self.elapsed.wrapping_add(elapsed);
        self.processed = self.processed.wrapping_add(1);
    }

    /// Counts a failed file and takes its `size` bytes out of the budget.
    pub fn errored(&mut self, size: u64)
        ensures
            *final(self) == old(self).after_errored(size),
    {
        self.errored = self.errored.wrapping_add(1);
        self.total_bytes = self.total_bytes.wrapping_sub(size);
    }

    /// Counts an inefficient file and takes its `size` bytes out of the
    /// budget.
    pub fn inefficient(&mut self, size: u64)
        ensures
            *final(self) == old(self).after_inefficient(size),
    {
        self.inefficient = self.inefficient.wrapping_add(1);
        self.total_bytes = self.total_bytes.wrapping_sub(size);
    }
}

/// What the files of one type add up to: the exact values that the counters
/// of that type stand for.
pub struct Tally {
    pub total: nat,
    pub processed: nat,
    pub errored: nat,
    pub inefficient: nat,
    /// bytes of the files that are neither failed nor inefficient
    pub budget: nat,
    /// bytes of the files that were converted
    pub input: nat,
}

impl Tally {
    pub open spec fn zero() -> Tally {
        Tally { total: 0, processed: 0, errored: 0, inefficient: 0, budget: 0, input: 0 }
    }

    pub open spec fn plus(self, other: Tally) -> Tally {
        Tally {
            total: self.total + other.total,
            processed: self.processed + other.processed,
            errored: self.errored + other.errored,
            inefficient: self.inefficient + other.inefficient,
            budget: self.budget + other.budget,
            input: self.input + other.input,
        }
    }
}

/// What one file adds to the tally of type `c`.
pub open spec fn contribution(e: FileEntry, c: FileType) -> Tally {
    if e.ext != c {
        Tally::zero()
    } else {
        let len = e.metadata.len as nat;
        match e.state {
            None => Tally { total: 1, budget: len, ..Tally::zero() },
            Some(o) => Tally {
                total: 1,
                processed: if o.is_converted() {
                    1
                } else {
                    0
                },
                errored: if o is Error {
                    1
                } else {
                    0
                },
                inefficient: if o is Inefficient {
                    1
                } else {
                    0
                },
                budget: if o.is_excluded() {
                    0
                } else {
                    len
                },
                input: if o.is_converted() {
                    len
                } else {
                    0
                },
            },
        }
    }
}

/// The tally of type `c` over a list of files.
pub open spec fn tally(files: Seq<FileEntry>, c: FileType) -> Tally
    decreases files.len(),
{
    if files.len() == 0 {
        Tally::zero()
    } else {
        tally(files.drop_last(), c).plus(contribution(files.last(), c))
    }
}

/// Replacing one file changes the tally by the difference of what the old
/// and the new file add to it.
pub proof fn lemma_tally_update(files: Seq<FileEntry>, i: int, e: FileEntry, c: FileType)
    requires
        0 <= i < files.len(),
    ensures
        tally(files.update(i, e), c).plus(contribution(files[i], c)) == tally(files, c).plus(
            contribution(e, c),
        ),
    decreases files.len(),
{
    let updated = files.update(i, e);
    if i == files.len() - 1 {
        assert(updated.drop_last() =~= files.drop_last());
    } else {
        assert(updated.drop_last() =~= files.drop_last().update(i, e));
        lemma_tally_update(files.drop_last(), i, e, c);
    }
}

/// No count of a tally exceeds the number of files, and the converted bytes
/// are part of the budget.
pub proof fn lemma_tally_bounds(files: Seq<FileEntry>, c: FileType)
    ensures
        tally(files, c).total <= files.len(),
        tally(files, c).processed + tally(files, c).errored + tally(files, c).inefficient <= tally(
            files,
            c,
        ).total,
        tally(files, c).input <= tally(files, c).budget,
    decreases files.len(),
{
    if files.len() > 0 {
        lemma_tally_bounds(files.drop_last(), c);
    }
}

/// A tally over the first files of a list never exceeds the tally over the
/// whole list.
pub proof fn lemma_tally_prefix(files: Seq<FileEntry>, k: int, c: FileType)
    requires
        0 <= k <= files.len(),
    ensures
        tally(files.take(k), c).total <= tally(files, c).total,
        tally(files.take(k), c).budget <= tally(files, c).budget,
    decreases files.len() - k,
{
    if k == files.len() {
        assert(files.take(k) =~= files);
    } else {
        lemma_tally_prefix(files, k + 1, c);
        assert(files.take(k + 1).drop_last() =~= files.take(k));
    }
}

/// The tally over one file more is the tally so far plus what that file
/// adds.
pub proof fn lemma_tally_step(files: Seq<FileEntry>, k: int, c: FileType)
    requires
        0 <= k < files.len(),
    ensures
        tally(files.take(k + 1), c) == tally(files.take(k), c).plus(contribution(files[k], c)),
{
    assert(files.take(k + 1).drop_last() =~= files.take(k));
}

/// While no file has an outcome, nothing is counted as processed, failed or
/// inefficient, and no byte as converted.
pub proof fn lemma_tally_fresh(files: Seq<FileEntry>, c: FileType)
    requires
        forall|i: int| 0 <= i < files.len() ==> (#[trigger] files[i]).state is None,
    ensures
        tally(files, c).processed == 0,
        tally(files, c).errored == 0,
        tally(files, c).inefficient == 0,
        tally(files, c).input == 0,
    decreases files.len(),
{
    if files.len() > 0 {
        lemma_tally_fresh(files.drop_last(), c);
    }
}

/// What all file types add up to, with the time that is still needed and
/// the bytes that the run will have saved, both estimated from the files
/// converted so far.
#[derive(Debug, Clone, Copy, PartialEq, Eq, Structural)]
pub struct Stats {
    pub total: u128,
    pub processed: u128,
    pub errored: u128,
    pub inefficient: u128,
    pub total_bytes: u128,
    pub input_bytes: u128,
    pub output_bytes: u128,
    /// in milliseconds, summed over all workers
    pub elapsed: u128,
    /// in milliseconds of work, for a single worker
    pub eta: u128,
    pub estimated_savings: u128,
}

impl ConversionProgress {
    /// The bytes of this type that are still to be converted.
    pub open spec fn spec_remaining(self) -> u64 {
        if self.total_bytes >= self.input_bytes {
            (self.total_bytes - self.input_bytes) as u64
        } else {
            0
        }
    }

    /// The bytes of this type that are still to be converted.
    #[verifier::when_used_as_spec(spec_remaining)]
    pub fn remaining(self) -> (r: u64)
        ensures
            r == self.spec_remaining(),
    {
        if self.total_bytes >= self.input_bytes {
            self.total_bytes - self.input_bytes
        } else {
            0
        }
    }

    /// The time that the remaining bytes of this type will take at the speed
    /// of the bytes converted so far: the remaining bytes divided by the
    /// bytes converted per millisecond, that is
    /// `remaining * elapsed / input_bytes`, rounded down and at most
    /// `u64::MAX`. Zero while no time or no byte has been counted.
    pub open spec fn spec_eta(self) -> u64 {
        match self.estimate_time(self.remaining()) {
            Some(time) => time,
            None => 0,
        }
    }

    /// The estimated time, in milliseconds, for the remaining bytes of this
    /// type.
    #[verifier::when_used_as_spec(spec_eta)]
    pub fn eta(self) -> (r: u64)
        ensures
            r == self.spec_eta(),
    {
        match self.estimate_time(self.remaining()) {
            Some(time) => time,
            None => 0,
        }
    }

    /// The time that `bytes` bytes take at the speed of the bytes converted
    /// so far, `bytes * elapsed / input_bytes` milliseconds, rounded down and
    /// at most `u64::MAX`; unknown while no time or no byte has been
    /// counted.
    pub open spec fn spec_estimate_time(self, bytes: u64) -> Option<u64> {
        if self.elapsed > 0 && self.input_bytes > 0 {
            let time = bytes * self.elapsed / (self.input_bytes as int);
            Some(
                if time > u64::MAX {
                    u64::MAX
                } else {
                    time as u64
                },
            )
        } else {
            None
        }
    }

    /// The estimated time, in milliseconds, for converting `bytes` bytes of
    /// this type.
    #[verifier::when_used_as_spec(spec_estimate_time)]
    pub fn estimate_time(self, bytes: u64) -> (r: Option<u64>)
        ensures
            r == self.spec_estimate_time(bytes),
    {
        if self.elapsed > 0 && self.input_bytes > 0 {
            assert(bytes * self.elapsed <= 0xffff_ffff_ffff_ffff * 0xffff_ffff_ffff_ffff)
                by (nonlinear_arith)
                requires
                    bytes <= 0xffff_ffff_ffff_ffff,
                    self.elapsed <= 0xffff_ffff_ffff_ffff,
            ;
            let time: u128 = (bytes as u128) * (self.elapsed as u128) / (self.input_bytes as u128);
            if time > u64::MAX as u128 {
                Some(u64::MAX)
            } else {
                Some(time as u64)
            }
        } else {
            None
        }
    }

    /// The bytes that this type will have saved at the end, at the ratio of
    /// the bytes converted so far: what was saved already, plus the same
    /// share of the remaining bytes, rounded down. While nothing has been
    /// converted, all remaining bytes; nothing where the output so far is
    /// larger than the input.
    pub open spec fn spec_savings(self) -> u128 {
        if self.input_bytes == 0 {
            self.remaining() as u128
        } else if self.output_bytes <= self.input_bytes {
            let saved = self.input_bytes - self.output_bytes;
            (saved + self.remaining() * saved / (self.input_bytes as int)) as u128
        } else {
            0
        }
    }

    /// The estimated bytes saved for this type at the end of the run.
    #[verifier::when_used_as_spec(spec_savings)]
    pub fn savings(self) -> (r: u128)
        ensures
            r == self.spec_savings(),
            r <= 0x1_ffff_ffff_ffff_ffff,
    {
        let remaining = self.remaining();
        if self.input_bytes == 0 {
            remaining as u128
        } else if self.output_bytes <= self.input_bytes {
            let saved: u64 = self.input_bytes - self.output_bytes;
            assert(remaining * saved <= 0xffff_ffff_ffff_ffff * 0xffff_ffff_ffff_ffff)
                by (nonlinear_arith)
                requires
                    remaining <= 0xffff_ffff_ffff_ffff,
                    saved <= 0xffff_ffff_ffff_ffff,
            ;
            let share: u128 = (remaining as u128) * (saved as u128) / (self.input_bytes as u128);
            assert(share <= remaining) by (nonlinear_arith)
                requires
                    share == (remaining * saved) / (self.input_bytes as int),
                    saved <= self.input_bytes,
                    self.input_bytes > 0,
                    remaining >= 0,
                    saved >= 0,
            ;
            (saved as u128) + share
        } else {
            0
        }
    }
}

impl Stats {
    /// The statistics before any type is counted.
    pub open spec fn zero() -> Stats {
        Stats {
            total: 0,
            processed: 0,
            errored: 0,
            inefficient: 0,
            total_bytes: 0,
            input_bytes: 0,
            output_bytes: 0,
            elapsed: 0,
            eta: 0,
            estimated_savings: 0,
        }
    }

    /// The statistics with the counters of one more type added.
    pub open spec fn with(self, p: ConversionProgress) -> Stats {
        Stats {
            total: (self.total + p.total) as u128,
            processed: (self.processed + p.processed) as u128,
            errored: (self.errored + p.errored) as u128,
            inefficient: (self.inefficient + p.inefficient) as u128,
            total_bytes: (self.total_bytes + p.total_bytes) as u128,
            input_bytes: (self.input_bytes + p.input_bytes) as u128,
            output_bytes: (self.output_bytes + p.output_bytes) as u128,
            elapsed: (self.elapsed + p.elapsed) as u128,
            eta: (self.eta + p.eta()) as u128,
            estimated_savings: (self.estimated_savings + p.savings()) as u128,
        }
    }

    /// No value is larger than `k` times the largest 65-bit number, which
    /// leaves room for every type there is.
    pub open spec fn within(self, k: int) -> bool {
        let bound = k * 0x1_ffff_ffff_ffff_ffff;
        &&& self.total <= bound
        &&& self.processed <= bound
        &&& self.errored <= bound
        &&& self.inefficient <= bound
        &&& self.total_bytes <= bound
        &&& self.input_bytes <= bound
        &&& self.output_bytes <= bound
        &&& self.elapsed <= bound
        &&& self.eta <= bound
        &&& self.estimated_savings <= bound
    }

    /// The statistics with the estimated time lowered by `spent`
    /// milliseconds, but not below zero.
    pub open spec fn less(self, spent: u128) -> Stats {
        Stats {
            eta: if self.eta >= spent {
                (self.eta - spent) as u128
            } else {
                0
            },
            ..self
        }
    }
}

/// The statistics over the first `k` file types.
pub open spec fn stats_upto(progress: PerFileType<ConversionProgress>, k: int) -> Stats
    decreases k,
{
    if k <= 0 {
        Stats::zero()
    } else {
        stats_upto(progress, k - 1).with(progress.spec_get(FileType::spec_all()[k - 1]))
    }
}

/// The statistics over all file types: every counter summed, the estimated
/// times and the estimated savings of the types added up.
pub open spec fn stats_of(progress: PerFileType<ConversionProgress>) -> Stats {
    stats_upto(progress, 14)
}

/// Sums the counters of all file types and adds up the estimates.
pub fn collect_stats(progress: &PerFileType<ConversionProgress>) -> (r: Stats)
    ensures
        r == stats_of(*progress),
{
    let all = FileType::all();
    let mut r = Stats {
        total: 0,
        processed: 0,
        errored: 0,
        inefficient: 0,
        total_bytes: 0,
        input_bytes: 0,
        output_bytes: 0,
        elapsed: 0,
        eta: 0,
        estimated_savings: 0,
    };
    let mut k: usize = 0;
    while k < 14
        invariant
            k <= 14,
            all@ == FileType::spec_all(),
            r == stats_upto(*progress, k as int),
            r.within(k as int),
        decreases 14 - k,
    {
        let p = *progress.get(all[k]);
        let savings = p.savings();
        let eta = p.eta();
        r =
        Stats {
            total: r.total + p.total as u128,
            processed: r.processed + p.processed as u128,
            errored: r.errored + p.errored as u128,
            inefficient: r.inefficient + p.inefficient as u128,
            total_bytes: r.total_bytes + p.total_bytes as u128,
            input_bytes: r.input_bytes + p.input_bytes as u128,
            output_bytes: r.output_bytes + p.output_bytes as u128,
            elapsed: r.elapsed + p.elapsed as u128,
            eta: r.eta + eta as u128,
            estimated_savings: r.estimated_savings + savings,
        };
        k = k + 1;
    }
    r
}

/// The tally over a list of files whatever their type.
pub open spec fn tally_all(files: Seq<FileEntry>) -> Tally
    decreases files.len(),
{
    if files.len() == 0 {
        Tally::zero()
    } else {
        tally_all(files.drop_last()).plus(contribution(files.last(), files.last().ext))
    }
}

/// The tallies of the first `k` file types, added up.
pub open spec fn tally_sum(files: Seq<FileEntry>, k: int) -> Tally
    decreases k,
{
    if k <= 0 {
        Tally::zero()
    } else {
        tally_sum(files, k - 1).plus(tally(files, FileType::spec_all()[k - 1]))
    }
}

/// What one file adds to the tallies of the first `k` file types together.
pub open spec fn contribution_sum(e: FileEntry, k: int) -> Tally
    decreases k,
{
    if k <= 0 {
        Tally::zero()
    } else {
        contribution_sum(e, k - 1).plus(contribution(e, FileType::spec_all()[k - 1]))
    }
}

/// A file adds to the tally of its own type and to no other.
pub proof fn lemma_contribution_sum(e: FileEntry, k: int)
    requires
        0 <= k <= 14,
    ensures
        contribution_sum(e, k) == if e.ext.position() < k {
            contribution(e, e.ext)
        } else {
            Tally::zero()
        },
    decreases k,
{
    FileType::lemma_all_types();
    if k > 0 {
        lemma_contribution_sum(e, k - 1);
    }
}

/// Adding a file to a list adds to the sum of the tallies what the file
/// adds to each of them.
pub proof fn lemma_tally_sum_step(files: Seq<FileEntry>, k: int)
    requires
        files.len() > 0,
        0 <= k <= 14,
    ensures
        tally_sum(files, k) == tally_sum(files.drop_last(), k).plus(
            contribution_sum(files.last(), k),
        ),
    decreases k,
{
    if k > 0 {
        lemma_tally_sum_step(files, k - 1);
    }
}

/// The tallies of all file types add up to the tally over the whole list.
pub proof fn lemma_tally_sum_is_tally_all(files: Seq<FileEntry>)
    ensures
        tally_sum(files, 14) == tally_all(files),
    decreases files.len(),
{
    if files.len() == 0 {
        assert forall|k: int| 0 <= k <= 14 implies #[trigger] tally_sum(files, k) == Tally::zero() by {
            lemma_tally_sum_empty(files, k);
        }
    } else {
        lemma_tally_sum_is_tally_all(files.drop_last());
        lemma_tally_sum_step(files, 14);
        lemma_contribution_sum(files.last(), 14);
        FileType::lemma_all_types();
    }
}

/// The tallies of an empty list add up to nothing.
pub proof fn lemma_tally_sum_empty(files: Seq<FileEntry>, k: int)
    requires
        files.len() == 0,
        0 <= k,
    ensures
        tally_sum(files, k) == Tally::zero(),
    decreases k,
{
    if k > 0 {
        lemma_tally_sum_empty(files, k - 1);
    }
}

/// The tally over a whole list counts every file once.
pub proof fn lemma_tally_all_counts_files(files: Seq<FileEntry>)
    ensures
        tally_all(files).total == files.len(),
        tally_all(files).processed + tally_all(files).errored + tally_all(files).inefficient
            <= files.len(),
    decreases files.len(),
{
    if files.len() > 0 {
        lemma_tally_all_counts_files(files.drop_last());
    }
}

/// The estimated savings of one type are at most what was saved so far and
/// the remaining bytes together.
pub proof fn lemma_savings_bound(p: ConversionProgress)
    ensures
        p.spec_savings() <= 0x1_ffff_ffff_ffff_ffff,
{
    if p.input_bytes != 0 && p.output_bytes <= p.input_bytes {
        let saved = p.input_bytes - p.output_bytes;
        let remaining = p.spec_remaining();
        assert(remaining * saved / (p.input_bytes as int) <= remaining) by (nonlinear_arith)
            requires
                0 <= saved <= p.input_bytes,
                p.input_bytes > 0,
                remaining >= 0,
        ;
    }
}

} // verus!
