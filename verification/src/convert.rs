//! The shared state of a run: the work list with its outcomes, the cursor
//! that hands out work, one slot and one phase for each worker, the pause
//! flag, the counters, and the lists of the settled items and of the items
//! that need attention.
//!
//! Every operation is one indivisible step of one worker or of the user. A
//! run with several workers is some interleaving of such steps, so whatever
//! holds after every step holds of every run.

use std::collections::BTreeSet;
use vstd::prelude::*;
use vstd::std_specs::cmp::OrdSpec;
use vstd::std_specs::iter::IteratorSpec;
use crate::attempt::{
    begin_spec, first_quality, forces_lossless, lemma_dry_run_never_encodes,
    lemma_outcome_reports_length, retry_quality, spec_first_quality, spec_retry_quality, Attempt,
    AttemptView, Event, Next, NextView, Request, Stage, Verdict, VerdictView,
};
use crate::cli::{Conv2JxlArgs, FileType, PerFileType};
use crate::order::mirror;
use crate::outcome::{ConversionOutcome, FileEntry, OutcomeView};
use crate::progress::{
    collect_stats, contribution, lemma_savings_bound, lemma_tally_all_counts_files,
    lemma_tally_bounds,
    lemma_tally_fresh, lemma_tally_prefix, lemma_tally_step, lemma_tally_sum_is_tally_all,
    lemma_tally_update, stats_of, stats_upto, tally, tally_all, tally_sum, ConversionProgress,
    Stats,
};

verus! {

/// The index that a slot shows while its worker holds no file.
pub const NO_FILE: usize = usize::MAX;

/// What a worker shows of itself: the file it took last and when it took it.
#[derive(Debug, Clone, Copy, PartialEq, Eq, Structural)]
pub struct ThreadState {
    /// The index of the file, or [`NO_FILE`].
    pub file_idx: usize,
    /// in milliseconds since program start
    pub start_time: u64,
}

/// Where a worker stands between two of its steps.
#[derive(Debug)]
pub enum Phase {
    /// The worker holds no unfinished file: it takes the next one.
    Idle,
    /// The worker holds a file and waits at the pause gate before it tries
    /// to convert it at the given quality.
    Gate { quality: u8, second: bool },
    /// An attempt is under way since the time `started`.
    Running { attempt: Attempt, started: u64 },
    /// The worker was told that no work is left and has stopped for good.
    Exited,
}

/// A [`Phase`] over the view of its attempt.
pub enum PhaseView {
    Idle,
    Gate { quality: u8, second: bool },
    Running { attempt: AttemptView, started: u64 },
    Exited,
}

impl View for Phase {
    type V = PhaseView;

    open spec fn view(&self) -> PhaseView {
        match self {
            Phase::Idle => PhaseView::Idle,
            Phase::Gate { quality, second } => PhaseView::Gate {
                quality: *quality,
                second: *second,
            },
            Phase::Running { attempt, started } => PhaseView::Running {
                attempt: attempt@,
                started: *started,
            },
            Phase::Exited => PhaseView::Exited,
        }
    }
}

impl PhaseView {
    /// The worker holds a file whose outcome is still to come.
    pub open spec fn busy(self) -> bool {
        self is Gate || self is Running
    }
}

/// The state that all workers share.
pub struct ConversionState {
    excluded: usize,
    files: Vec<FileEntry>,
    idx: usize,
    claimed: usize,
    /// One slot for each worker
    active: Vec<ThreadState>,
    phases: Vec<Phase>,
    /// The files whose outcome is anything but a plain success, each as the
    /// pair of `u64::MAX` minus the time of its outcome and its index, so
    /// that the set's own order is latest first.
    non_success: BTreeSet<(u64, usize)>,
    /// The files that are converted or skipped, each as such a pair too.
    settled: BTreeSet<(u64, usize)>,
    progress: PerFileType<ConversionProgress>,
    paused: bool,
}

/// What a worker does before its next step.
#[derive(Debug, Clone, Copy, PartialEq, Eq, Structural)]
pub enum Step {
    /// Nothing: take the next step at once.
    Poll,
    /// Wait until the pause flag is cleared, then take the next step.
    Wait,
    /// Perform the request and report its result with the next step.
    Perform(Request),
    /// Stop: no work is left for this worker.
    Exit,
}

/// The counters of a file's type after the file, of length `len`, got the
/// outcome `o` after `elapsed` milliseconds: a converted file is added with
/// its sizes and its time, a failed or inefficient one is counted and taken
/// out of the byte budget, a skipped one changes nothing.
pub open spec fn counted(p: ConversionProgress, o: OutcomeView, len: u64, elapsed: u64)
    -> ConversionProgress {
    match o {
        OutcomeView::Success(input, output) => p.after_add(input, output, elapsed),
        OutcomeView::Warning(input, output, _) => p.after_add(input, output, elapsed),
        OutcomeView::Skipped => p,
        OutcomeView::Error(_) => p.after_errored(len),
        OutcomeView::Inefficient(_, _) => p.after_inefficient(len),
    }
}

/// The time from `started` to `now`, zero where the clock went backwards.
pub open spec fn elapsed_since(started: u64, now: u64) -> u64 {
    if now >= started {
        (now - started) as u64
    } else {
        0
    }
}

/// The first entry comes before the second in the list of items that need
/// attention: it is the later one, or of the same time and the lower index.
pub open spec fn precedes(x: (u64, usize), y: (u64, usize)) -> bool {
    x.0 > y.0 || (x.0 == y.0 && x.1 < y.1)
}

/// The time that the first `k` workers have spent so far on the files that
/// they hold, in milliseconds up to `now`.
pub open spec fn in_flight(slots: Seq<ThreadState>, phases: Seq<PhaseView>, now: u64, k: int) -> nat
    decreases k,
{
    if k <= 0 {
        0
    } else {
        in_flight(slots, phases, now, k - 1) + if phases[k - 1].busy() {
            elapsed_since(slots[k - 1].start_time, now) as nat
        } else {
            0
        }
    }
}

/// The views of a list of phases.
pub open spec fn phase_views(phases: Seq<Phase>) -> Seq<PhaseView> {
    Seq::new(phases.len(), |s: int| phases[s]@)
}

/// Slot `s` shows file `i`.
pub open spec fn shows(slots: Seq<ThreadState>, s: int, i: int) -> bool {
    0 <= s < slots.len() && slots[s].file_idx == i
}

/// The pairs of a stored set with their times mirrored back, in the order of
/// the set: the latest first, and of those with the same time the one with
/// the lowest index first.
fn latest_first(set: &BTreeSet<(u64, usize)>) -> (v: Vec<(u64, usize)>)
    ensures
        forall|e: (u64, usize)| v@.to_set().contains(e) <==> set@.contains((mirror(e.0), e.1)),
        forall|a: int, b: int| 0 <= a < b < v.len() ==> precedes(v[a], v[b]),
{
    broadcast use vstd::laws_cmp::group_laws_cmp;
    broadcast use vstd::std_specs::btree::group_btree_axioms;

    let mut v: Vec<(u64, usize)> = Vec::new();
    let it = set.iter();
    let ghost rem = it.remaining();
    for x in iter: it
        invariant
            iter.seq() == rem,
            v.len() == iter.index(),
            forall|j: int| 0 <= j < v.len() ==> #[trigger] v@[j] == (mirror(rem[j].0), rem[j].1),
    {
        v.push((u64::MAX - x.0, x.1));
    }
    proof {
        vstd::std_specs::btree::axiom_increasing_seq_meaning::<&(u64, usize)>(rem);
        assert forall|a: int, b: int| 0 <= a < b < v.len() implies precedes(v[a], v[b]) by {
            assert(OrdSpec::cmp_spec(&rem[a], &rem[b]) is Less);
        }
        assert forall|e: (u64, usize)| v@.to_set().contains(e) <==> set@.contains(
            (mirror(e.0), e.1),
        ) by {
            let stored = (mirror(e.0), e.1);
            if v@.to_set().contains(e) {
                let j = choose|j: int| 0 <= j < v@.len() && v@[j] == e;
                assert(rem.unref()[j] == stored);
            }
            if set@.contains(stored) {
                let j = choose|j: int| 0 <= j < rem.unref().len() && rem.unref()[j] == stored;
                assert(v@[j] == e);
            }
        }
    }
    v
}

/// The files can start a run: none has an outcome yet, and the sizes of the
/// files of each type add up to no more than a 64-bit counter holds.
pub open spec fn admissible(files: Seq<FileEntry>) -> bool {
    &&& forall|i: int| 0 <= i < files.len() ==> (#[trigger] files[i]).state is None
    &&& forall|c: FileType| (#[trigger] tally(files, c)).budget <= u64::MAX
}

impl ConversionState {
    /// The work list.
    pub closed spec fn files(&self) -> Seq<FileEntry> {
        self.files@
    }

    /// The cursor: the index that the next worker to ask is given. At the
    /// length of the work list it says that no work is handed out any more.
    pub closed spec fn cursor(&self) -> usize {
        self.idx
    }

    /// How many files have been handed out: exactly those below this index.
    pub closed spec fn claimed(&self) -> usize {
        self.claimed
    }

    /// The slots, one for each worker.
    pub closed spec fn slots(&self) -> Seq<ThreadState> {
        self.active@
    }

    /// The phases, one for each worker.
    pub closed spec fn phases(&self) -> Seq<PhaseView> {
        phase_views(self.phases@)
    }

    /// The counters of each file type.
    pub closed spec fn counters(&self) -> PerFileType<ConversionProgress> {
        self.progress
    }

    /// The pause flag.
    pub closed spec fn is_paused(&self) -> bool {
        self.paused
    }

    /// How many files the scan left out because of the path patterns.
    pub closed spec fn spec_excluded(&self) -> usize {
        self.excluded
    }

    /// Some slot shows file `i`.
    pub open spec fn held(&self, i: int) -> bool {
        exists|s: int| #[trigger] shows(self.slots(), s, i)
    }

    /// The counters of type `c` are what the files of that type add up to.
    pub open spec fn counters_match(&self, c: FileType) -> bool {
        let p = self.counters().spec_get(c);
        let t = tally(self.files(), c);
        &&& p.total == t.total
        &&& p.processed == t.processed
        &&& p.errored == t.errored
        &&& p.inefficient == t.inefficient
        &&& p.total_bytes == t.budget
        &&& p.input_bytes == t.input
    }

    /// The pairs of time and index of the files that need attention: those
    /// with an outcome other than a plain success, each with the time at
    /// which its outcome was recorded.
    pub open spec fn non_success(&self) -> Set<(u64, usize)> {
        Set::new(
            |e: (u64, usize)|
                e.1 < self.files().len() && self.files()[e.1 as int].state is Some
                    && self.files()[e.1 as int].state->0.needs_attention()
                    && self.files()[e.1 as int].last_active == e.0,
        )
    }

    /// The pairs of time and index of the files that are settled: those
    /// that are converted, with or without a warning, or skipped, each with
    /// the time at which its outcome was recorded.
    pub open spec fn settled(&self) -> Set<(u64, usize)> {
        Set::new(
            |e: (u64, usize)|
                e.1 < self.files().len() && self.files()[e.1 as int].state is Some
                    && self.files()[e.1 as int].state->0.is_settled()
                    && self.files()[e.1 as int].last_active == e.0,
        )
    }

    /// The stored sets of items are the ones that the outcomes define.
    pub closed spec fn index_wf(&self) -> bool {
        &&& forall|k: u64, i: usize| #[trigger]
            self.non_success@.contains((k, i)) <==> self.non_success().contains((mirror(k), i))
        &&& forall|k: u64, i: usize| #[trigger]
            self.settled@.contains((k, i)) <==> self.settled().contains((mirror(k), i))
    }

    /// What holds of the shared state between any two steps.
    pub open spec fn wf(&self) -> bool {
        let files = self.files();
        let slots = self.slots();
        let phases = self.phases();
        &&& self.cursor() <= files.len()
        &&& self.claimed() <= self.cursor()
        &&& (self.claimed() == self.cursor() || self.cursor() == files.len())
        &&& phases.len() == slots.len()
        &&& forall|s: int|
            0 <= s < slots.len() ==> (#[trigger] slots[s]).file_idx == NO_FILE || slots[s].file_idx
                < self.claimed()
        &&& forall|s: int, t: int|
            0 <= s < slots.len() && 0 <= t < slots.len() && s != t && (#[trigger] slots[s]).file_idx
                != NO_FILE ==> slots[s].file_idx != (#[trigger] slots[t]).file_idx
        &&& forall|i: int|
            0 <= i < files.len() && (#[trigger] files[i]).state is Some ==> i < self.claimed()
        &&& forall|i: int|
            0 <= i < self.claimed() ==> (#[trigger] files[i]).state is Some || self.held(i)
        &&& forall|s: int|
            0 <= s < slots.len() ==> match #[trigger] phases[s] {
                PhaseView::Idle => slots[s].file_idx == NO_FILE || files[slots[s].file_idx as int].state
                    is Some,
                PhaseView::Exited => slots[s].file_idx == NO_FILE && self.cursor() == files.len(),
                _ => slots[s].file_idx != NO_FILE && files[slots[s].file_idx as int].state is None,
            }
        &&& forall|c: FileType| #[trigger] self.counters_match(c)
        &&& self.index_wf()
    }

    /// The state at the start of a run on `files` with `workers` workers:
    /// the cursor at the first file, every worker idle with an empty slot,
    /// the counters seeded with the number and the bytes of the files of
    /// each type, not paused. The files must be [`admissible`]; where they
    /// are not, there is no state.
    pub fn new(files: Vec<FileEntry>, workers: usize, excluded: usize) -> (r: Option<Self>)
        ensures
            r is Some <==> admissible(files@),
            r matches Some(state) ==> {
                &&& state.wf()
                &&& state.files() == files@
                &&& state.cursor() == 0
                &&& state.claimed() == 0
                &&& state.slots() == Seq::new(
                    workers as nat,
                    |s: int| ThreadState { file_idx: NO_FILE, start_time: 0 },
                )
                &&& state.phases() == Seq::new(workers as nat, |s: int| PhaseView::Idle)
                &&& !state.is_paused()
                &&& state.spec_excluded() == excluded
                &&& forall|c: FileType|
                    (#[trigger] state.counters().spec_get(c)).output_bytes == 0
                        && state.counters().spec_get(c).elapsed == 0
            },
    {
        let mut progress: PerFileType<ConversionProgress> = PerFileType {
            JXL: ConversionProgress::default(),
            PPM: ConversionProgress::default(),
            PNM: ConversionProgress::default(),
            PFM: ConversionProgress::default(),
            PAM: ConversionProgress::default(),
            PGX: ConversionProgress::default(),
            PNG: ConversionProgress::default(),
            APNG: ConversionProgress::default(),
            GIF: ConversionProgress::default(),
            JPEG: ConversionProgress::default(),
            TIFF: ConversionProgress::default(),
            TGA: ConversionProgress::default(),
            QOI: ConversionProgress::default(),
            BMP: ConversionProgress::default(),
        };
        let mut k: usize = 0;
        while k < files.len()
            invariant
                k <= files.len(),
                forall|i: int| 0 <= i < k ==> (#[trigger] files@[i]).state is None,
                forall|c: FileType|
                    (#[trigger] progress.spec_get(c)) == (ConversionProgress {
                        total: tally(files@.take(k as int), c).total as usize,
                        total_bytes: tally(files@.take(k as int), c).budget as u64,
                        ..ConversionProgress::zero()
                    }),
                forall|c: FileType|
                    (#[trigger] tally(files@.take(k as int), c)).total <= k && tally(
                        files@.take(k as int),
                        c,
                    ).budget <= u64::MAX,
            decreases files.len() - k,
        {
            let ext = files[k].ext;
            let len = files[k].metadata.len;
            if files[k].state.is_some() {
                return None;
            }
            proof {
                assert forall|c: FileType|
                    #[trigger] tally(files@.take(k + 1), c) == tally(files@.take(k as int), c).plus(
                        contribution(files@[k as int], c),
                    ) by {
                    lemma_tally_step(files@, k as int, c);
                }
            }
            let ghost before = progress;
            let counters = progress.get_mut(ext);
            match counters.total_bytes.checked_add(len) {
                None => {
                    proof {
                        lemma_tally_prefix(files@, k + 1, ext);
                    }
                    return None;
                },
                Some(bytes) => {
                    counters.total_bytes = bytes;
                    counters.total = counters.total + 1;
                },
            }
            assert forall|c: FileType|
                (#[trigger] progress.spec_get(c)) == (ConversionProgress {
                    total: tally(files@.take(k + 1), c).total as usize,
                    total_bytes: tally(files@.take(k + 1), c).budget as u64,
                    ..ConversionProgress::zero()
                }) by {
                assert(before.spec_get(c) == (ConversionProgress {
                    total: tally(files@.take(k as int), c).total as usize,
                    total_bytes: tally(files@.take(k as int), c).budget as u64,
                    ..ConversionProgress::zero()
                }));
            }
            k = k + 1;
        }
        assert(files@.take(k as int) =~= files@);
        let mut active: Vec<ThreadState> = Vec::new();
        let mut phases: Vec<Phase> = Vec::new();
        let mut w: usize = 0;
        while w < workers
            invariant
                w <= workers,
                active.len() == w,
                phases.len() == w,
                forall|s: int|
                    0 <= s < w ==> #[trigger] active@[s] == (ThreadState {
                        file_idx: NO_FILE,
                        start_time: 0,
                    }),
                forall|s: int| 0 <= s < w ==> #[trigger] phases@[s] is Idle,
            decreases workers - w,
        {
            active.push(ThreadState { file_idx: NO_FILE, start_time: 0 });
            phases.push(Phase::Idle);
            w = w + 1;
        }
        assert(active@ =~= Seq::new(
            workers as nat,
            |s: int| ThreadState { file_idx: NO_FILE, start_time: 0 },
        ));
        let state = ConversionState {
            excluded,
            files,
            idx: 0,
            claimed: 0,
            active,
            phases,
            non_success: BTreeSet::new(),
            settled: BTreeSet::new(),
            progress,
            paused: false,
        };
        proof {
            assert forall|c: FileType| #[trigger] state.counters_match(c) by {
                lemma_tally_fresh(files@, c);
            }
        }
        Some(state)
    }

    /// The number of files in the work list.
    pub fn len(&self) -> (r: usize)
        ensures
            r == self.files().len(),
    {
        self.files.len()
    }

    /// The number of workers.
    pub fn workers(&self) -> (r: usize)
        ensures
            r == self.slots().len(),
    {
        self.active.len()
    }

    /// File `i` of the work list.
    pub fn file(&self, i: usize) -> (r: &FileEntry)
        requires
            i < self.files().len(),
        ensures
            *r == self.files()[i as int],
    {
        &self.files[i]
    }

    /// The slot of worker `thread_idx`.
    pub fn slot(&self, thread_idx: usize) -> (r: ThreadState)
        requires
            thread_idx < self.slots().len(),
        ensures
            r == self.slots()[thread_idx as int],
    {
        self.active[thread_idx]
    }

    /// The index that the next worker to ask is given; the length of the
    /// work list once no work is handed out any more.
    pub fn idx(&self) -> (r: usize)
        ensures
            r == self.cursor(),
    {
        self.idx
    }

    /// The counters of the files of type `ftype`.
    pub fn progress(&self, ftype: FileType) -> (r: ConversionProgress)
        ensures
            r == self.counters().spec_get(ftype),
    {
        *self.progress.get(ftype)
    }

    /// Whether the run is paused.
    pub fn paused(&self) -> (r: bool)
        ensures
            r == self.is_paused(),
    {
        self.paused
    }

    /// How many files the scan left out because of the path patterns.
    pub fn excluded(&self) -> (r: usize)
        ensures
            r == self.spec_excluded(),
    {
        self.excluded
    }

    /// Whether worker `thread_idx` holds a file whose outcome is still to
    /// come.
    pub fn is_busy(&self, thread_idx: usize) -> (r: bool)
        requires
            thread_idx < self.phases().len(),
        ensures
            r == self.phases()[thread_idx as int].busy(),
    {
        matches!(self.phases[thread_idx], Phase::Gate { .. } | Phase::Running { .. })
    }

    /// The quality of the attempt that worker `thread_idx` is making or
    /// about to make, if it holds an unfinished file.
    pub fn quality(&self, thread_idx: usize) -> (r: Option<u8>)
        requires
            thread_idx < self.phases().len(),
        ensures
            r == match self.phases()[thread_idx as int] {
                PhaseView::Gate { quality, .. } => Some(quality),
                PhaseView::Running { attempt, .. } => Some(attempt.quality),
                _ => None,
            },
    {
        match &self.phases[thread_idx] {
            Phase::Gate { quality, .. } => Some(*quality),
            Phase::Running { attempt, .. } => Some(attempt.quality),
            _ => None,
        }
    }

    /// The request that worker `thread_idx` is to perform, if its attempt is
    /// under way.
    pub fn pending(&self, thread_idx: usize) -> (r: Option<Request>)
        requires
            thread_idx < self.phases().len(),
        ensures
            r == match self.phases()[thread_idx as int] {
                PhaseView::Running { attempt, .. } => Some(attempt.stage.spec_request()),
                _ => None,
            },
    {
        match &self.phases[thread_idx] {
            Phase::Running { attempt, .. } => Some(attempt.request()),
            _ => None,
        }
    }

    /// What each worker is busy with at time `now`: the index of the file
    /// that it holds and the milliseconds since it took the file, or nothing
    /// where it holds no unfinished file.
    pub fn active(&self, now: u64) -> (r: Vec<Option<(usize, u64)>>)
        requires
            self.wf(),
        ensures
            r@.len() == self.slots().len(),
            forall|s: int|
                0 <= s < r@.len() ==> #[trigger] r@[s] == if self.phases()[s].busy() {
                    Some(
                        (
                            self.slots()[s].file_idx,
                            elapsed_since(self.slots()[s].start_time, now),
                        ),
                    )
                } else {
                    None
                },
    {
        let mut r: Vec<Option<(usize, u64)>> = Vec::new();
        let mut k: usize = 0;
        while k < self.active.len()
            invariant
                k <= self.active.len(),
                self.active.len() == self.phases.len(),
                r@.len() == k,
                forall|s: int|
                    0 <= s < k ==> #[trigger] r@[s] == if self.phases()[s].busy() {
                        Some(
                            (
                                self.slots()[s].file_idx,
                                elapsed_since(self.slots()[s].start_time, now),
                            ),
                        )
                    } else {
                        None
                    },
            decreases self.active.len() - k,
        {
            if matches!(self.phases[k], Phase::Gate { .. } | Phase::Running { .. }) {
                let slot = self.active[k];
                let time: u64 = if now >= slot.start_time {
                    now - slot.start_time
                } else {
                    0
                };
                r.push(Some((slot.file_idx, time)));
            } else {
                r.push(None);
            }
            k = k + 1;
        }
        r
    }

    /// The statistics over all file types at time `now`. The estimated time
    /// is lowered by the time that the workers have already spent on the
    /// files that they hold, since that time is part of the estimate.
    pub fn stats(&self, now: u64) -> (r: Stats)
        requires
            self.wf(),
        ensures
            r == stats_of(self.counters()).less(
                in_flight(self.slots(), self.phases(), now, self.slots().len() as int) as u128,
            ),
    {
        let totals = collect_stats(&self.progress);
        let mut spent: u128 = 0;
        let mut k: usize = 0;
        while k < self.active.len()
            invariant
                k <= self.active.len(),
                self.active.len() == self.phases.len(),
                spent == in_flight(self.slots(), self.phases(), now, k as int),
                spent <= k * 0xffff_ffff_ffff_ffff,
            decreases self.active.len() - k,
        {
            if matches!(self.phases[k], Phase::Gate { .. } | Phase::Running { .. }) {
                let started = self.active[k].start_time;
                let time: u64 = if now >= started {
                    now - started
                } else {
                    0
                };
                spent = spent + time as u128;
            }
            k = k + 1;
        }
        Stats {
            eta: if totals.eta >= spent {
                totals.eta - spent
            } else {
                0
            },
            ..totals
        }
    }

    /// The items that need attention, each with the time of its outcome and
    /// its index: the latest first, and of those with the same time the one
    /// with the lowest index first.
    pub fn attention_list(&self) -> (v: Vec<(u64, usize)>)
        requires
            self.wf(),
        ensures
            v@.to_set() == self.non_success(),
            forall|a: int, b: int| 0 <= a < b < v.len() ==> precedes(v[a], v[b]),
    {
        let v = latest_first(&self.non_success);
        assert(v@.to_set() =~= self.non_success());
        v
    }

    /// The settled items, each with the time of its outcome and its index:
    /// the latest first, and of those with the same time the one with the
    /// lowest index first.
    pub fn settled_list(&self) -> (v: Vec<(u64, usize)>)
        requires
            self.wf(),
        ensures
            v@.to_set() == self.settled(),
            forall|a: int, b: int| 0 <= a < b < v.len() ==> precedes(v[a], v[b]),
    {
        let v = latest_first(&self.settled);
        assert(v@.to_set() =~= self.settled());
        v
    }

    /// Nothing of the state differs from `pre`.
    pub open spec fn same_as(&self, pre: &Self) -> bool {
        &&& self.files() == pre.files()
        &&& self.cursor() == pre.cursor()
        &&& self.claimed() == pre.claimed()
        &&& self.slots() == pre.slots()
        &&& self.phases() == pre.phases()
        &&& self.counters() == pre.counters()
        &&& self.is_paused() == pre.is_paused()
        &&& self.spec_excluded() == pre.spec_excluded()
    }

    /// The batch is completed: no work is handed out any more, and every
    /// slot is empty.
    pub open spec fn spec_completed(&self) -> bool {
        &&& self.cursor() >= self.files().len()
        &&& forall|s: int| 0 <= s < self.slots().len() ==> (#[trigger] self.slots()[s]).file_idx
            == NO_FILE
    }

    /// Whether the batch is completed.
    pub fn completed(&self) -> (r: bool)
        ensures
            r == self.spec_completed(),
    {
        if self.idx < self.files.len() {
            return false;
        }
        let mut s: usize = 0;
        while s < self.active.len()
            invariant
                s <= self.active.len(),
                forall|t: int| 0 <= t < s ==> (#[trigger] self.active@[t]).file_idx == NO_FILE,
            decreases self.active.len() - s,
        {
            if self.active[s].file_idx != NO_FILE {
                assert(self.slots()[s as int].file_idx != NO_FILE);
                return false;
            }
            s = s + 1;
        }
        true
    }

    /// Asks the workers to stop: the cursor is set to the length of the work
    /// list, so that no file is handed out from now on. Files that workers
    /// already hold are finished as usual.
    pub fn stop(&mut self)
        requires
            old(self).wf(),
        ensures
            final(self).wf(),
            final(self).cursor() == old(self).files().len(),
            final(self).files() == old(self).files(),
            final(self).claimed() == old(self).claimed(),
            final(self).slots() == old(self).slots(),
            final(self).phases() == old(self).phases(),
            final(self).counters() == old(self).counters(),
            final(self).is_paused() == old(self).is_paused(),
            final(self).spec_excluded() == old(self).spec_excluded(),
    {
        self.idx = self.files.len();
        proof {
            self.lemma_frame(old(self));
        }
    }

    /// Flips the pause flag. Returns true when the run is no longer paused,
    /// which is when the waiting workers have to be woken, all of them.
    pub fn toggle_pause(&mut self) -> (wake: bool)
        requires
            old(self).wf(),
        ensures
            final(self).wf(),
            final(self).is_paused() == !old(self).is_paused(),
            wake == old(self).is_paused(),
            final(self).files() == old(self).files(),
            final(self).cursor() == old(self).cursor(),
            final(self).claimed() == old(self).claimed(),
            final(self).slots() == old(self).slots(),
            final(self).phases() == old(self).phases(),
            final(self).counters() == old(self).counters(),
            final(self).spec_excluded() == old(self).spec_excluded(),
    {
        self.paused = !self.paused;
        proof {
            self.lemma_frame(old(self));
        }
        !self.paused
    }

    /// Only the phase of worker `w` differs from `pre`: it is `phase` now.
    pub open spec fn phase_change_of(&self, pre: &Self, w: int, phase: PhaseView) -> bool {
        &&& self.files() == pre.files()
        &&& self.cursor() == pre.cursor()
        &&& self.claimed() == pre.claimed()
        &&& self.slots() == pre.slots()
        &&& self.phases() == pre.phases().update(w, phase)
        &&& self.counters() == pre.counters()
        &&& self.is_paused() == pre.is_paused()
        &&& self.spec_excluded() == pre.spec_excluded()
    }

    /// The state is what the claim of idle worker `w` at time `now` makes of
    /// `pre`. Where the cursor is below the length of the work list, the
    /// worker gets the file at the cursor, the cursor moves on by one, the
    /// slot shows the file and the time, and the worker stands at the pause gate
    /// with the quality of a first attempt. Else the slot is emptied and the
    /// worker has exited. Files, counters and pause flag are as before.
    pub open spec fn claim_of(&self, pre: &Self, w: int, args: Conv2JxlArgs, now: u64) -> bool {
        &&& self.files() == pre.files()
        &&& self.counters() == pre.counters()
        &&& self.is_paused() == pre.is_paused()
        &&& self.spec_excluded() == pre.spec_excluded()
        &&& if pre.cursor() < pre.files().len() {
            let i = pre.cursor();
            &&& self.cursor() == i + 1
            &&& self.claimed() == i + 1
            &&& self.slots() == pre.slots().update(w, ThreadState { file_idx: i, start_time: now })
            &&& self.phases() == pre.phases().update(
                w,
                PhaseView::Gate {
                    quality: spec_first_quality(args, pre.files()[i as int].ext),
                    second: false,
                },
            )
        } else {
            &&& self.cursor() == pre.cursor()
            &&& self.claimed() == pre.claimed()
            &&& self.slots() == pre.slots().update(
                w,
                ThreadState { file_idx: NO_FILE, start_time: now },
            )
            &&& self.phases() == pre.phases().update(w, PhaseView::Exited)
        }
    }

    /// The state is what recording the outcome `o` for the file of worker
    /// `w` makes of `pre`: the file has the outcome and the time `now` and is
    /// otherwise as before, every other file is untouched, the counters of
    /// the file's type are [`counted`] up, and the worker is idle. Cursor,
    /// slots and pause flag are as before.
    pub open spec fn record_of(&self, pre: &Self, w: int, o: OutcomeView, now: u64, elapsed: u64)
        -> bool {
        let i = pre.slots()[w].file_idx as int;
        let before = pre.files()[i];
        let after = self.files()[i];
        &&& self.files().len() == pre.files().len()
        &&& after.state matches Some(x) && x@ == o
        &&& after.last_active == now
        &&& after.path == before.path
        &&& after.ext == before.ext
        &&& after.metadata == before.metadata
        &&& forall|j: int|
            0 <= j < pre.files().len() && j != i ==> #[trigger] self.files()[j] == pre.files()[j]
        &&& self.counters() == pre.counters().spec_set(
            before.ext,
            counted(pre.counters().spec_get(before.ext), o, before.metadata.len, elapsed),
        )
        &&& self.phases() == pre.phases().update(w, PhaseView::Idle)
        &&& self.cursor() == pre.cursor()
        &&& self.claimed() == pre.claimed()
        &&& self.slots() == pre.slots()
        &&& self.is_paused() == pre.is_paused()
        &&& self.spec_excluded() == pre.spec_excluded()
    }

    /// The state is what the pause gate makes of `pre` for worker `w`, who waits
    /// there: while the run is paused nothing changes; else an attempt on
    /// the worker's file begins, at the quality that the worker came with.
    pub open spec fn gate_of(&self, pre: &Self, w: int, args: Conv2JxlArgs, now: u64) -> bool {
        if pre.is_paused() {
            self.same_as(pre)
        } else {
            self.phase_change_of(
                pre,
                w,
                PhaseView::Running {
                    attempt: begin_spec(
                        args,
                        pre.files()[pre.slots()[w].file_idx as int],
                        pre.phases()[w]->Gate_quality,
                        pre.phases()[w]->Gate_second,
                    ),
                    started: now,
                },
            )
        }
    }

    /// The state and the step are what the report `event` makes of `pre`
    /// for worker `w`, whose attempt is under way. The attempt takes the
    /// report. If it goes on, the worker is to perform its next request. If
    /// it ends with an outcome, the outcome is recorded. If its output was
    /// rejected, the retry policy decides: the worker goes back to the pause gate
    /// with the fallback quality, or the file is recorded as inefficient
    /// with the size of the rejected output.
    pub open spec fn advance_of(
        &self,
        pre: &Self,
        w: int,
        args: Conv2JxlArgs,
        event: Event,
        now: u64,
        step: Step,
    ) -> bool {
        let item = pre.files()[pre.slots()[w].file_idx as int];
        let a = pre.phases()[w]->Running_attempt;
        let started = pre.phases()[w]->Running_started;
        match a.advance(args, item, event) {
            NextView::Perform(b) => {
                &&& self.phase_change_of(pre, w, PhaseView::Running { attempt: b, started })
                &&& step == Step::Perform(b.stage.spec_request())
            },
            NextView::Finished(VerdictView::Outcome(o)) => {
                &&& self.record_of(pre, w, o, now, elapsed_since(started, now))
                &&& step == Step::Poll
            },
            NextView::Finished(VerdictView::Rejected(size)) => match spec_retry_quality(
                args,
                item,
                a.quality,
                a.second,
            ) {
                Some(quality) => {
                    &&& self.phase_change_of(pre, w, PhaseView::Gate { quality, second: true })
                    &&& step == Step::Poll
                },
                None => {
                    &&& self.record_of(
                        pre,
                        w,
                        OutcomeView::Inefficient(item.metadata.len, size),
                        now,
                        elapsed_since(started, now),
                    )
                    &&& step == Step::Poll
                },
            },
        }
    }

    /// The state and the step are what one step of worker `w` makes of
    /// `pre`, whatever the worker's phase.
    pub open spec fn step_of(
        &self,
        pre: &Self,
        w: int,
        args: Conv2JxlArgs,
        event: Event,
        now: u64,
        step: Step,
    ) -> bool {
        match pre.phases()[w] {
            PhaseView::Idle => {
                &&& self.claim_of(pre, w, args, now)
                &&& step == if pre.cursor() < pre.files().len() {
                    Step::Poll
                } else {
                    Step::Exit
                }
            },
            PhaseView::Gate { .. } => {
                &&& self.gate_of(pre, w, args, now)
                &&& step == if pre.is_paused() {
                    Step::Wait
                } else {
                    Step::Perform(Request::CheckOutput)
                }
            },
            PhaseView::Running { .. } => self.advance_of(pre, w, args, event, now, step),
            PhaseView::Exited => self.same_as(pre) && step == Step::Exit,
        }
    }

    /// Puts `phase` in the place of the phase of worker `w`.
    fn set_phase(&mut self, w: usize, phase: Phase)
        requires
            w < old(self).phases@.len(),
        ensures
            final(self).phases@ == old(self).phases@.update(w as int, phase),
            final(self).phases() == old(self).phases().update(w as int, phase@),
            final(self).files@ == old(self).files@,
            final(self).active@ == old(self).active@,
            final(self).progress == old(self).progress,
            final(self).non_success@ == old(self).non_success@,
            final(self).settled@ == old(self).settled@,
            final(self).idx == old(self).idx,
            final(self).claimed == old(self).claimed,
            final(self).paused == old(self).paused,
            final(self).excluded == old(self).excluded,
    {
        let mut phase = phase;
        core::mem::swap(&mut self.phases[w], &mut phase);
    }

    /// A change of the phase of one worker keeps the state well-formed if
    /// the new phase, like the old, fits what the worker's slot shows.
    proof fn lemma_phase_change(&self, pre: &Self, w: int)
        requires
            pre.wf(),
            0 <= w < pre.phases().len(),
            self.phases() == pre.phases().update(w, self.phases()[w]),
            self.files@ == pre.files@,
            self.active@ == pre.active@,
            self.progress == pre.progress,
            self.non_success@ == pre.non_success@,
            self.settled@ == pre.settled@,
            self.claimed == pre.claimed,
            self.idx == pre.idx,
            self.phases()[w].busy() == pre.phases()[w].busy(),
            !self.phases()[w].busy() ==> pre.phases()[w] is Idle && self.phases()[w] is Idle,
        ensures
            self.wf(),
    {
        assert forall|c: FileType| #[trigger] self.counters_match(c) by {
            assert(pre.counters_match(c));
        }
        assert forall|s: int| 0 <= s < self.slots().len() implies match #[trigger] self.phases()[s] {
            PhaseView::Idle => self.slots()[s].file_idx == NO_FILE
                || self.files()[self.slots()[s].file_idx as int].state is Some,
            PhaseView::Exited => self.slots()[s].file_idx == NO_FILE && self.cursor()
                == self.files().len(),
            _ => self.slots()[s].file_idx != NO_FILE
                && self.files()[self.slots()[s].file_idx as int].state is None,
        } by {
            if s == w {
                assert(self.phases()[w].busy() == pre.phases()[w].busy());
            }
        }
    }

    /// The next file for idle worker `thread_idx`, claimed at time `now`.
    /// Returns the index of the file, which no other worker is given, or
    /// nothing where no work is left; the worker has then exited.
    pub fn next_file(&mut self, thread_idx: usize, args: &Conv2JxlArgs, now: u64) -> (r: Option<
        usize,
    >)
        requires
            old(self).wf(),
            thread_idx < old(self).slots().len(),
            old(self).phases()[thread_idx as int] is Idle,
        ensures
            final(self).wf(),
            final(self).claim_of(old(self), thread_idx as int, *args, now),
            r == if old(self).cursor() < old(self).files().len() {
                Some(old(self).cursor())
            } else {
                None
            },
    {
        let i = self.idx;
        if i >= self.files.len() {
            self.active[thread_idx] = ThreadState { file_idx: NO_FILE, start_time: now };
            self.set_phase(thread_idx, Phase::Exited);
            proof {
                self.lemma_claim(old(self), thread_idx as int);
            }
            return None;
        }
        self.idx = i + 1;
        self.claimed = i + 1;
        self.active[thread_idx] = ThreadState { file_idx: i, start_time: now };
        let quality = first_quality(args, self.files[i].ext);
        self.set_phase(thread_idx, Phase::Gate { quality, second: false });
        proof {
            self.lemma_claim(old(self), thread_idx as int);
        }
        Some(i)
    }

    /// The claim of an idle worker keeps the state well-formed.
    proof fn lemma_claim(&self, pre: &Self, w: int)
        requires
            pre.wf(),
            0 <= w < pre.slots().len(),
            pre.phases()[w] is Idle,
            self.files@ == pre.files@,
            self.progress == pre.progress,
            self.non_success@ == pre.non_success@,
            self.settled@ == pre.settled@,
            self.active@ == pre.active@.update(w, self.active@[w]),
            self.phases() == pre.phases().update(w, self.phases()[w]),
            if pre.idx < pre.files@.len() {
                &&& self.idx == pre.idx + 1
                &&& self.claimed == pre.idx + 1
                &&& self.active@[w].file_idx == pre.idx
                &&& self.phases()[w] is Gate
            } else {
                &&& self.idx == pre.idx
                &&& self.claimed == pre.claimed
                &&& self.active@[w].file_idx == NO_FILE
                &&& self.phases()[w] is Exited
            },
        ensures
            self.wf(),
    {
        assert(pre.slots()[w].file_idx == NO_FILE || pre.files()[pre.slots()[w].file_idx as int].state
            is Some);
        assert forall|i: int| 0 <= i < self.claimed() implies (#[trigger] self.files()[i]).state
            is Some || self.held(i) by {
            if i < pre.claimed() {
                if !(pre.files()[i].state is Some) {
                    let s = choose|s: int| #[trigger] shows(pre.slots(), s, i);
                    assert(shows(self.slots(), s, i));
                }
            } else {
                assert(shows(self.slots(), w, i));
            }
        }
        assert forall|c: FileType| #[trigger] self.counters_match(c) by {
            assert(pre.counters_match(c));
        }
    }

    /// The pause gate, for worker `thread_idx` who stands there. Returns
    /// true while the run is paused: the worker is to wait and ask again,
    /// and nothing has changed. Else the worker's attempt has begun at time
    /// `now`, and its first request is to check the output path.
    pub fn wait_paused(&mut self, thread_idx: usize, args: &Conv2JxlArgs, now: u64) -> (wait: bool)
        requires
            old(self).wf(),
            thread_idx < old(self).slots().len(),
            old(self).phases()[thread_idx as int] is Gate,
        ensures
            final(self).wf(),
            final(self).gate_of(old(self), thread_idx as int, *args, now),
            wait == old(self).is_paused(),
    {
        if self.paused {
            return true;
        }
        let i = self.active[thread_idx].file_idx;
        let attempt = match &self.phases[thread_idx] {
            Phase::Gate { quality, second } => Attempt::begin(
                args,
                &self.files[i],
                *quality,
                *second,
            ),
            _ => {
                assert(false);
                return true;
            },
        };
        self.set_phase(thread_idx, Phase::Running { attempt, started: now });
        proof {
            self.lemma_phase_change(old(self), thread_idx as int);
        }
        false
    }

    /// Counts a failed file in the counters of its type and lists it among
    /// the items that need attention, under the time `last_active`.
    fn add_error(&mut self, idx: usize, last_active: u64)
        requires
            idx < old(self).files@.len(),
        ensures
            final(self).progress == old(self).progress.spec_set(
                old(self).files@[idx as int].ext,
                old(self).progress.spec_get(old(self).files@[idx as int].ext).after_errored(
                    old(self).files@[idx as int].metadata.len,
                ),
            ),
            final(self).non_success@ == old(self).non_success@.insert(
                (mirror(last_active), idx),
            ),
            final(self).settled@ == old(self).settled@,
            final(self).files@ == old(self).files@,
            final(self).active@ == old(self).active@,
            final(self).phases@ == old(self).phases@,
            final(self).idx == old(self).idx,
            final(self).claimed == old(self).claimed,
            final(self).paused == old(self).paused,
            final(self).excluded == old(self).excluded,
    {
        let ext = self.files[idx].ext;
        let len = self.files[idx].metadata.len;
        self.progress.get_mut(ext).errored(len);
        self.list(idx, last_active);
    }

    /// Counts an inefficient file in the counters of its type and lists it
    /// among the items that need attention, under the time `last_active`.
    fn add_inefficient(&mut self, idx: usize, last_active: u64)
        requires
            idx < old(self).files@.len(),
        ensures
            final(self).progress == old(self).progress.spec_set(
                old(self).files@[idx as int].ext,
                old(self).progress.spec_get(old(self).files@[idx as int].ext).after_inefficient(
                    old(self).files@[idx as int].metadata.len,
                ),
            ),
            final(self).non_success@ == old(self).non_success@.insert(
                (mirror(last_active), idx),
            ),
            final(self).settled@ == old(self).settled@,
            final(self).files@ == old(self).files@,
            final(self).active@ == old(self).active@,
            final(self).phases@ == old(self).phases@,
            final(self).idx == old(self).idx,
            final(self).claimed == old(self).claimed,
            final(self).paused == old(self).paused,
            final(self).excluded == old(self).excluded,
    {
        let ext = self.files[idx].ext;
        let len = self.files[idx].metadata.len;
        self.progress.get_mut(ext).inefficient(len);
        self.list(idx, last_active);
    }

    /// Lists file `idx` among the items that need attention, under the time
    /// `last_active`.
    fn list(&mut self, idx: usize, last_active: u64)
        ensures
            final(self).non_success@ == old(self).non_success@.insert(
                (mirror(last_active), idx),
            ),
            final(self).settled@ == old(self).settled@,
            final(self).progress == old(self).progress,
            final(self).files@ == old(self).files@,
            final(self).active@ == old(self).active@,
            final(self).phases@ == old(self).phases@,
            final(self).idx == old(self).idx,
            final(self).claimed == old(self).claimed,
            final(self).paused == old(self).paused,
            final(self).excluded == old(self).excluded,
    {
        broadcast use vstd::laws_cmp::group_laws_cmp;

        self.non_success.insert((u64::MAX - last_active, idx));
    }

    /// Lists file `idx` among the settled items, under the time
    /// `last_active`.
    fn settle(&mut self, idx: usize, last_active: u64)
        ensures
            final(self).settled@ == old(self).settled@.insert((mirror(last_active), idx)),
            final(self).non_success@ == old(self).non_success@,
            final(self).progress == old(self).progress,
            final(self).files@ == old(self).files@,
            final(self).active@ == old(self).active@,
            final(self).phases@ == old(self).phases@,
            final(self).idx == old(self).idx,
            final(self).claimed == old(self).claimed,
            final(self).paused == old(self).paused,
            final(self).excluded == old(self).excluded,
    {
        broadcast use vstd::laws_cmp::group_laws_cmp;

        self.settled.insert((u64::MAX - last_active, idx));
    }

    /// Records the outcome of the file that busy worker `w` holds, counts it
    /// and lists it where it needs attention, and leaves the worker idle.
    fn record(&mut self, w: usize, outcome: ConversionOutcome, now: u64, elapsed: u64)
        requires
            old(self).wf(),
            w < old(self).slots().len(),
            old(self).phases()[w as int].busy(),
            outcome.input_size() matches Some(n) ==> n == old(self).files()[old(
                self,
            ).slots()[w as int].file_idx as int].metadata.len,
        ensures
            final(self).wf(),
            final(self).record_of(old(self), w as int, outcome@, now, elapsed),
    {
        let i = self.active[w].file_idx;
        let ghost entry = self.files@[i as int];
        match &outcome {
            ConversionOutcome::Success(input, output) => {
                let ext = self.files[i].ext;
                self.progress.get_mut(ext).add(*input, *output, elapsed);
                self.settle(i, now);
            },
            ConversionOutcome::Warning(input, output, _) => {
                let ext = self.files[i].ext;
                self.progress.get_mut(ext).add(*input, *output, elapsed);
                self.list(i, now);
                self.settle(i, now);
            },
            ConversionOutcome::Skipped => {
                self.list(i, now);
                self.settle(i, now);
            },
            ConversionOutcome::Error(_) => {
                self.add_error(i, now);
            },
            ConversionOutcome::Inefficient(_, _) => {
                self.add_inefficient(i, now);
            },
        }
        self.files[i].set_state(now, outcome);
        self.set_phase(w, Phase::Idle);
        proof {
            assert(self.progress == old(self).progress.spec_set(
                entry.ext,
                counted(old(self).progress.spec_get(entry.ext), outcome@, entry.metadata.len, elapsed),
            ));
            self.lemma_record(old(self), w as int, now, elapsed);
        }
    }

    /// Recording an outcome keeps the state well-formed.
    proof fn lemma_record(&self, pre: &Self, w: int, now: u64, elapsed: u64)
        requires
            pre.wf(),
            0 <= w < pre.slots().len(),
            pre.phases()[w].busy(),
            self.active@ == pre.active@,
            self.idx == pre.idx,
            self.claimed == pre.claimed,
            self.phases() == pre.phases().update(w, PhaseView::Idle),
            ({
                let i = pre.active@[w].file_idx as int;
                let before = pre.files@[i];
                let after = self.files@[i];
                &&& self.files@ == pre.files@.update(i, after)
                &&& after.state matches Some(o) && {
                    &&& (o.input_size() matches Some(n) ==> n == before.metadata.len)
                    &&& self.progress == pre.progress.spec_set(
                        before.ext,
                        counted(pre.progress.spec_get(before.ext), o@, before.metadata.len, elapsed),
                    )
                    &&& self.non_success@ == if o.needs_attention() {
                        pre.non_success@.insert((mirror(now), i as usize))
                    } else {
                        pre.non_success@
                    }
                    &&& self.settled@ == if o.is_settled() {
                        pre.settled@.insert((mirror(now), i as usize))
                    } else {
                        pre.settled@
                    }
                }
                &&& after.last_active == now
                &&& after.ext == before.ext
                &&& after.metadata == before.metadata
            }),
        ensures
            self.wf(),
    {
        let i = pre.active@[w].file_idx as int;
        let before = pre.files@[i];
        let after = self.files@[i];
        assert forall|s: int| 0 <= s < self.slots().len() implies match #[trigger] self.phases()[s] {
            PhaseView::Idle => self.slots()[s].file_idx == NO_FILE
                || self.files()[self.slots()[s].file_idx as int].state is Some,
            PhaseView::Exited => self.slots()[s].file_idx == NO_FILE && self.cursor()
                == self.files().len(),
            _ => self.slots()[s].file_idx != NO_FILE
                && self.files()[self.slots()[s].file_idx as int].state is None,
        } by {
            if s != w {
                assert(pre.slots()[s].file_idx != pre.slots()[w].file_idx || pre.slots()[s].file_idx
                    == NO_FILE);
            }
        }
        assert forall|c: FileType| #[trigger] self.counters_match(c) by {
            assert(pre.counters_match(c));
            lemma_tally_update(pre.files@, i, after, c);
            lemma_tally_bounds(self.files@, c);
            lemma_tally_bounds(pre.files@, c);
            assert(self.counters().spec_get(c) == if c == before.ext {
                self.progress.spec_get(before.ext)
            } else {
                pre.progress.spec_get(c)
            });
        }
    }

    /// Takes the report `event` for the attempt of worker `thread_idx` at
    /// time `now` and returns what the worker does next: it performs the
    /// attempt's next request, or it polls, after the file's outcome has been
    /// recorded or the worker has been sent back to the pause gate for a retry.
    pub fn next(&mut self, thread_idx: usize, args: &Conv2JxlArgs, event: Event, now: u64) -> (step:
        Step)
        requires
            old(self).wf(),
            thread_idx < old(self).slots().len(),
            old(self).phases()[thread_idx as int] is Running,
        ensures
            final(self).wf(),
            final(self).advance_of(old(self), thread_idx as int, *args, event, now, step),
    {
        let i = self.active[thread_idx].file_idx;
        let mut phase = Phase::Idle;
        core::mem::swap(&mut self.phases[thread_idx], &mut phase);
        match phase {
            Phase::Running { attempt, started } => {
                let quality = attempt.quality;
                let second = attempt.second;
                let elapsed = if now >= started {
                    now - started
                } else {
                    0
                };
                proof {
                    lemma_outcome_reports_length(attempt@, *args, self.files@[i as int], event);
                }
                match attempt.advance(args, &self.files[i], event) {
                    Next::Perform(attempt) => {
                        let request = attempt.request();
                        self.set_phase(thread_idx, Phase::Running { attempt, started });
                        proof {
                            assert(self.phases() =~= old(self).phases().update(
                                thread_idx as int,
                                self.phases()[thread_idx as int],
                            ));
                            self.lemma_phase_change(old(self), thread_idx as int);
                        }
                        Step::Perform(request)
                    },
                    Next::Finished(Verdict::Outcome(outcome)) => {
                        self.set_phase(thread_idx, Phase::Gate { quality, second });
                        proof {
                            assert(self.phases() =~= old(self).phases().update(
                                thread_idx as int,
                                self.phases()[thread_idx as int],
                            ));
                            self.lemma_phase_change(old(self), thread_idx as int);
                        }
                        self.record(thread_idx, outcome, now, elapsed);
                        assert(self.phases() =~= old(self).phases().update(
                            thread_idx as int,
                            PhaseView::Idle,
                        ));
                        Step::Poll
                    },
                    Next::Finished(Verdict::Rejected(size)) => {
                        match retry_quality(args, &self.files[i], quality, second) {
                            Some(fallback) => {
                                self.set_phase(
                                    thread_idx,
                                    Phase::Gate { quality: fallback, second: true },
                                );
                                proof {
                                    assert(self.phases() =~= old(self).phases().update(
                                        thread_idx as int,
                                        self.phases()[thread_idx as int],
                                    ));
                                    self.lemma_phase_change(old(self), thread_idx as int);
                                }
                                Step::Poll
                            },
                            None => {
                                self.set_phase(thread_idx, Phase::Gate { quality, second });
                                proof {
                                    assert(self.phases() =~= old(self).phases().update(
                                        thread_idx as int,
                                        self.phases()[thread_idx as int],
                                    ));
                                    self.lemma_phase_change(old(self), thread_idx as int);
                                }
                                let len = self.files[i].metadata.len;
                                self.record(
                                    thread_idx,
                                    ConversionOutcome::Inefficient(len, size),
                                    now,
                                    elapsed,
                                );
                                assert(self.phases() =~= old(self).phases().update(
                                    thread_idx as int,
                                    PhaseView::Idle,
                                ));
                                Step::Poll
                            },
                        }
                    },
                }
            },
            _ => {
                assert(false);
                Step::Poll
            },
        }
    }

    /// One step of worker `thread_idx` at time `now`, whatever its phase: an
    /// idle worker claims the next file, a worker at the pause gate tries to pass
    /// it, a worker whose attempt is under way hands in the report `event`,
    /// and a worker that has exited stays so. The report is read only in
    /// the third case. Returns what the worker does before its next step.
    pub fn step(&mut self, thread_idx: usize, args: &Conv2JxlArgs, event: Event, now: u64) -> (step:
        Step)
        requires
            old(self).wf(),
            thread_idx < old(self).slots().len(),
        ensures
            final(self).wf(),
            final(self).step_of(old(self), thread_idx as int, *args, event, now, step),
    {
        match &self.phases[thread_idx] {
            Phase::Idle => {
                match self.next_file(thread_idx, args, now) {
                    Some(_) => Step::Poll,
                    None => Step::Exit,
                }
            },
            Phase::Gate { .. } => {
                if self.wait_paused(thread_idx, args, now) {
                    Step::Wait
                } else {
                    Step::Perform(Request::CheckOutput)
                }
            },
            Phase::Running { .. } => self.next(thread_idx, args, event, now),
            Phase::Exited => Step::Exit,
        }
    }

    /// A state with the same files, slots, phases, counters and stored set
    /// as a well-formed one, and with a cursor that is still in range and
    /// hands out the same files, is well-formed.
    proof fn lemma_frame(&self, pre: &Self)
        requires
            pre.wf(),
            self.files@ == pre.files@,
            self.active@ == pre.active@,
            self.phases@ == pre.phases@,
            self.progress == pre.progress,
            self.non_success@ == pre.non_success@,
            self.settled@ == pre.settled@,
            self.claimed == pre.claimed,
            self.idx == pre.idx || self.idx == self.files@.len(),
        ensures
            self.wf(),
    {
        assert forall|c: FileType| #[trigger] self.counters_match(c) by {
            assert(pre.counters_match(c));
        }
    }
}

/// The options of a run together with the state that its workers share.
pub struct SharedState {
    pub args: Conv2JxlArgs,
    pub conv: ConversionState,
}

impl SharedState {
    /// One step of worker `thread_idx` at time `now`, in milliseconds since
    /// the run began; see [`ConversionState::step`]. The caller does what the
    /// returned step says and calls again, until the step is to exit.
    pub fn next(&mut self, thread_idx: usize, event: Event, now: u64) -> (step: Step)
        requires
            old(self).conv.wf(),
            thread_idx < old(self).conv.slots().len(),
        ensures
            final(self).conv.wf(),
            final(self).args == old(self).args,
            final(self).conv.step_of(
                &old(self).conv,
                thread_idx as int,
                old(self).args,
                event,
                now,
                step,
            ),
    {
        self.conv.step(thread_idx, &self.args, event, now)
    }

    /// Asks the workers to stop; see [`ConversionState::stop`].
    pub fn stop(&mut self)
        requires
            old(self).conv.wf(),
        ensures
            final(self).conv.wf(),
            final(self).args == old(self).args,
            final(self).conv.cursor() == old(self).conv.files().len(),
            final(self).conv.files() == old(self).conv.files(),
            final(self).conv.claimed() == old(self).conv.claimed(),
            final(self).conv.slots() == old(self).conv.slots(),
            final(self).conv.phases() == old(self).conv.phases(),
            final(self).conv.counters() == old(self).conv.counters(),
            final(self).conv.is_paused() == old(self).conv.is_paused(),
            final(self).conv.spec_excluded() == old(self).conv.spec_excluded(),
    {
        self.conv.stop()
    }
}

/// How many workers have an attempt under way.
pub open spec fn in_progress(phases: Seq<PhaseView>) -> nat
    decreases phases.len(),
{
    if phases.len() == 0 {
        0
    } else {
        in_progress(phases.drop_last()) + if phases.last() is Running {
            1nat
        } else {
            0nat
        }
    }
}

/// Replacing the phase of one worker changes the number of attempts under
/// way by that worker alone.
pub proof fn lemma_in_progress_update(phases: Seq<PhaseView>, w: int, phase: PhaseView)
    requires
        0 <= w < phases.len(),
    ensures
        in_progress(phases.update(w, phase)) + (if phases[w] is Running {
            1nat
        } else {
            0nat
        }) == in_progress(phases) + (if phase is Running {
            1nat
        } else {
            0nat
        }),
    decreases phases.len(),
{
    let updated = phases.update(w, phase);
    if w == phases.len() - 1 {
        assert(updated.drop_last() =~= phases.drop_last());
    } else {
        assert(updated.drop_last() =~= phases.drop_last().update(w, phase));
        lemma_in_progress_update(phases.drop_last(), w, phase);
    }
}

/// Once the batch is completed, every file that was handed out has its
/// outcome, and no other file has one. Where the whole list was handed out,
/// that is, where the workers were not stopped before the cursor reached the
/// end of the list, every file has an outcome.
pub proof fn lemma_completed_means_done(state: &ConversionState)
    requires
        state.wf(),
        state.spec_completed(),
    ensures
        forall|i: int|
            0 <= i < state.files().len() ==> ((#[trigger] state.files()[i]).state is Some <==> i
                < state.claimed()),
        state.claimed() == state.files().len() ==> forall|i: int|
            0 <= i < state.files().len() ==> (#[trigger] state.files()[i]).state is Some,
{
}

/// An outcome is written once: no step of any worker changes a file that has
/// its outcome, and the only file that a step can give an outcome to is the
/// one that the stepping worker holds. The work list keeps its length.
pub proof fn lemma_outcomes_are_final(
    pre: &ConversionState,
    post: &ConversionState,
    w: int,
    args: Conv2JxlArgs,
    event: Event,
    now: u64,
    step: Step,
)
    requires
        pre.wf(),
        0 <= w < pre.slots().len(),
        post.step_of(pre, w, args, event, now, step),
    ensures
        post.files().len() == pre.files().len(),
        forall|j: int|
            0 <= j < pre.files().len() && (#[trigger] pre.files()[j]).state is Some
                ==> post.files()[j] == pre.files()[j],
        forall|j: int|
            0 <= j < pre.files().len() && j != pre.slots()[w].file_idx ==> #[trigger] post.files()[j]
                == pre.files()[j],
{
}

/// No two workers hold the same unfinished file.
pub proof fn lemma_workers_hold_distinct_files(state: &ConversionState, a: int, b: int)
    requires
        state.wf(),
        0 <= a < state.slots().len(),
        0 <= b < state.slots().len(),
        a != b,
        state.phases()[a].busy(),
    ensures
        state.slots()[a].file_idx != state.slots()[b].file_idx,
        state.slots()[a].file_idx < state.files().len(),
        state.files()[state.slots()[a].file_idx as int].state is None,
{
}

/// A step of one worker leaves the slots and phases of all others alone, and
/// never moves the cursor back.
pub proof fn lemma_step_is_local(
    pre: &ConversionState,
    post: &ConversionState,
    w: int,
    args: Conv2JxlArgs,
    event: Event,
    now: u64,
    step: Step,
)
    requires
        pre.wf(),
        0 <= w < pre.slots().len(),
        post.step_of(pre, w, args, event, now, step),
    ensures
        post.slots().len() == pre.slots().len(),
        post.phases().len() == pre.phases().len(),
        forall|s: int|
            0 <= s < pre.slots().len() && s != w ==> #[trigger] post.slots()[s] == pre.slots()[s],
        forall|s: int|
            0 <= s < pre.phases().len() && s != w ==> #[trigger] post.phases()[s]
                == pre.phases()[s],
        post.cursor() >= pre.cursor(),
        post.is_paused() == pre.is_paused(),
{
}

/// While the run is paused no attempt begins: a step of any worker leaves
/// the number of attempts under way as it is or lowers it, and a worker at
/// the pause gate is told to wait and stays where it is.
pub proof fn lemma_pause_holds_workers(
    pre: &ConversionState,
    post: &ConversionState,
    w: int,
    args: Conv2JxlArgs,
    event: Event,
    now: u64,
    step: Step,
)
    requires
        pre.wf(),
        0 <= w < pre.slots().len(),
        pre.is_paused(),
        post.step_of(pre, w, args, event, now, step),
    ensures
        in_progress(post.phases()) <= in_progress(pre.phases()),
        pre.phases()[w] is Gate ==> step == Step::Wait && post.same_as(pre),
{
    lemma_in_progress_update(pre.phases(), w, post.phases()[w]);
}

/// Once the pause is lifted, a worker at the pause gate passes it with its next
/// step: its attempt begins, and it is asked to check the output path.
pub proof fn lemma_resume_admits_workers(
    pre: &ConversionState,
    post: &ConversionState,
    w: int,
    args: Conv2JxlArgs,
    event: Event,
    now: u64,
    step: Step,
)
    requires
        pre.wf(),
        0 <= w < pre.slots().len(),
        !pre.is_paused(),
        pre.phases()[w] is Gate,
        post.step_of(pre, w, args, event, now, step),
    ensures
        post.phases()[w] is Running,
        step == Step::Perform(Request::CheckOutput),
        in_progress(post.phases()) == in_progress(pre.phases()) + 1,
{
    lemma_in_progress_update(pre.phases(), w, post.phases()[w]);
}

/// After a request to stop no file is handed out: the cursor stays at the
/// length of the work list, no further file counts as claimed, an idle
/// worker exits with an empty slot, and no slot comes to show another file.
pub proof fn lemma_stop_ends_claims(
    pre: &ConversionState,
    post: &ConversionState,
    w: int,
    args: Conv2JxlArgs,
    event: Event,
    now: u64,
    step: Step,
)
    requires
        pre.wf(),
        0 <= w < pre.slots().len(),
        pre.cursor() == pre.files().len(),
        post.step_of(pre, w, args, event, now, step),
    ensures
        post.cursor() == post.files().len(),
        post.claimed() == pre.claimed(),
        pre.phases()[w] is Idle ==> step == Step::Exit && post.phases()[w] is Exited
            && post.slots()[w].file_idx == NO_FILE,
        post.slots()[w].file_idx == NO_FILE || post.slots()[w].file_idx == pre.slots()[w].file_idx,
{
}

/// A worker exits only once no work is handed out any more: where some
/// worker has exited, the cursor stands at the end of the work list.
pub proof fn lemma_exit_follows_the_end(state: &ConversionState, w: int)
    requires
        state.wf(),
        0 <= w < state.phases().len(),
        state.phases()[w] is Exited,
    ensures
        state.cursor() == state.files().len(),
        state.slots()[w].file_idx == NO_FILE,
{
}

/// Once every worker of a run has exited, the batch is completed. A run
/// without any worker is completed as soon as the cursor stands at the end
/// of the work list.
pub proof fn lemma_exited_means_completed(state: &ConversionState)
    requires
        state.wf(),
        forall|s: int| 0 <= s < state.phases().len() ==> #[trigger] state.phases()[s] is Exited,
        state.phases().len() == 0 ==> state.cursor() == state.files().len(),
    ensures
        state.spec_completed(),
{
    assert forall|s: int| 0 <= s < state.slots().len() implies (#[trigger] state.slots()[s]).file_idx
        == NO_FILE by {
        assert(state.phases()[s] is Exited);
    }
    if state.phases().len() > 0 {
        assert(state.phases()[0] is Exited);
    }
}

/// A file whose output was rejected is tried once more or given up as
/// inefficient, and nothing else. After the first attempt, where the retry
/// policy names a fallback quality, the worker goes back to the pause gate
/// to try at that quality, and the file stays without an outcome. After a
/// second attempt, or where the policy names no fallback, the file is
/// recorded as inefficient with its length and the size of the output that
/// was removed just before, and counted as such.
pub proof fn lemma_rejection_ends_in_retry_or_record(
    pre: &ConversionState,
    post: &ConversionState,
    w: int,
    args: Conv2JxlArgs,
    now: u64,
    step: Step,
)
    requires
        pre.wf(),
        0 <= w < pre.slots().len(),
        pre.phases()[w] matches PhaseView::Running { attempt, .. } && attempt.stage
            == Stage::RemoveInefficient,
        post.step_of(pre, w, args, Event::Succeeded, now, step),
    ensures
        step == Step::Poll,
        ({
            let i = pre.slots()[w].file_idx as int;
            let item = pre.files()[i];
            let attempt = pre.phases()[w]->Running_attempt;
            match spec_retry_quality(args, item, attempt.quality, attempt.second) {
                Some(fallback) => {
                    &&& !attempt.second
                    &&& !forces_lossless(args, item.ext)
                    &&& fallback < attempt.quality
                    &&& post.phases()[w] == PhaseView::Gate { quality: fallback, second: true }
                    &&& post.files() == pre.files()
                    &&& post.counters() == pre.counters()
                },
                None => {
                    &&& post.phases()[w] is Idle
                    &&& post.files()[i].state matches Some(o) && o@ == OutcomeView::Inefficient(
                        item.metadata.len,
                        attempt.output,
                    )
                    &&& post.counters().spec_get(item.ext).inefficient == pre.counters().spec_get(
                        item.ext,
                    ).inefficient + 1
                },
            }
        }),
{
    let i = pre.slots()[w].file_idx as int;
    let item = pre.files()[i];
    assert(pre.counters_match(item.ext));
    if spec_retry_quality(
        args,
        item,
        pre.phases()[w]->Running_attempt.quality,
        pre.phases()[w]->Running_attempt.second,
    ) is None {
        let after = post.files()[i];
        assert(post.files() =~= pre.files().update(i, after));
        lemma_tally_update(pre.files(), i, after, item.ext);
        lemma_tally_bounds(post.files(), item.ext);
    }
}

impl ConversionState {
    /// No attempt under way has reached the encoder.
    pub open spec fn before_encoding(&self) -> bool {
        forall|s: int|
            0 <= s < self.phases().len() ==> (#[trigger] self.phases()[s] matches PhaseView::Running {
                attempt,
                ..
            } ==> attempt.stage.before_encoding())
    }
}

/// In a dry run the encoder is never run. No step asks for it, no attempt
/// gets as far as the encoder, and every file that gets an outcome is
/// skipped, failed while being prepared, or counted as a success that
/// reports the file's length for both its input and its output. This holds
/// from the start of the run, when no attempt is under way.
pub proof fn lemma_dry_run_leaves_encoder_alone(
    pre: &ConversionState,
    post: &ConversionState,
    w: int,
    args: Conv2JxlArgs,
    event: Event,
    now: u64,
    step: Step,
)
    requires
        pre.wf(),
        0 <= w < pre.slots().len(),
        args.dry_run,
        pre.before_encoding(),
        post.step_of(pre, w, args, event, now, step),
    ensures
        post.before_encoding(),
        step != Step::Perform(Request::Encode),
        forall|j: int|
            0 <= j < pre.files().len() && pre.files()[j].state is None && (
            #[trigger] post.files()[j]).state is Some ==> {
                let o = post.files()[j].state->0@;
                o is Skipped || o is Error || o == OutcomeView::Success(
                    pre.files()[j].metadata.len,
                    pre.files()[j].metadata.len,
                )
            },
{
    let i = pre.slots()[w].file_idx as int;
    match pre.phases()[w] {
        PhaseView::Running { attempt, started } => {
            lemma_dry_run_never_encodes(attempt, args, pre.files()[i], event);
        },
        _ => {},
    }
}

/// The statistics over all file types count the outcomes of the whole work
/// list: every file once, every converted, failed or inefficient file as
/// such, the bytes of the files that are neither failed nor inefficient as
/// the budget, and the bytes of the converted files as the input.
pub proof fn lemma_stats_count_outcomes(state: &ConversionState)
    requires
        state.wf(),
    ensures
        stats_of(state.counters()).total == state.files().len(),
        stats_of(state.counters()).processed == tally_all(state.files()).processed,
        stats_of(state.counters()).errored == tally_all(state.files()).errored,
        stats_of(state.counters()).inefficient == tally_all(state.files()).inefficient,
        stats_of(state.counters()).total_bytes == tally_all(state.files()).budget,
        stats_of(state.counters()).input_bytes == tally_all(state.files()).input,
{
    lemma_stats_follow_tallies(state, 14);
    lemma_tally_sum_is_tally_all(state.files());
    lemma_tally_all_counts_files(state.files());
}

/// The statistics over the first `k` file types are the tallies of those
/// types, added up.
proof fn lemma_stats_follow_tallies(state: &ConversionState, k: int)
    requires
        state.wf(),
        0 <= k <= 14,
    ensures
        stats_upto(state.counters(), k).total == tally_sum(state.files(), k).total,
        stats_upto(state.counters(), k).processed == tally_sum(state.files(), k).processed,
        stats_upto(state.counters(), k).errored == tally_sum(state.files(), k).errored,
        stats_upto(state.counters(), k).inefficient == tally_sum(state.files(), k).inefficient,
        stats_upto(state.counters(), k).total_bytes == tally_sum(state.files(), k).budget,
        stats_upto(state.counters(), k).input_bytes == tally_sum(state.files(), k).input,
        stats_upto(state.counters(), k).within(k),
    decreases k,
{
    if k > 0 {
        lemma_stats_follow_tallies(state, k - 1);
        assert(state.counters_match(FileType::spec_all()[k - 1]));
        lemma_savings_bound(state.counters().spec_get(FileType::spec_all()[k - 1]));
    }
}

/// Recording a failure lists the file once and counts it once. The file was
/// not among the items that need attention, and it is there now under the
/// time of the step, with every earlier item kept. The counters of its type
/// show one more failed file and a byte budget that is less by the file's
/// length; every other counter of that type, and every counter of every
/// other type, is as it was.
pub proof fn lemma_failure_is_listed_and_counted(
    pre: &ConversionState,
    post: &ConversionState,
    w: int,
    message: Seq<char>,
    now: u64,
    elapsed: u64,
)
    requires
        pre.wf(),
        0 <= w < pre.slots().len(),
        pre.phases()[w].busy(),
        post.record_of(pre, w, OutcomeView::Error(message), now, elapsed),
    ensures
        forall|t: u64| !pre.non_success().contains((t, pre.slots()[w].file_idx)),
        post.non_success() == pre.non_success().insert((now, pre.slots()[w].file_idx)),
        post.settled() == pre.settled(),
        ({
            let item = pre.files()[pre.slots()[w].file_idx as int];
            let before = pre.counters().spec_get(item.ext);
            let after = post.counters().spec_get(item.ext);
            &&& after.errored == before.errored + 1
            &&& after.total_bytes == before.total_bytes - item.metadata.len
            &&& after.total == before.total
            &&& after.processed == before.processed
            &&& after.inefficient == before.inefficient
            &&& after.input_bytes == before.input_bytes
            &&& after.output_bytes == before.output_bytes
            &&& after.elapsed == before.elapsed
            &&& forall|c: FileType|
                c != item.ext ==> #[trigger] post.counters().spec_get(c) == pre.counters().spec_get(
                    c,
                )
        }),
{
    let i = pre.slots()[w].file_idx as int;
    let item = pre.files()[i];
    assert(item.state is None);
    assert(pre.counters_match(item.ext));
    assert(post.files() =~= pre.files().update(i, post.files()[i]));
    lemma_tally_update(pre.files(), i, post.files()[i], item.ext);
    lemma_tally_bounds(post.files(), item.ext);
    lemma_tally_bounds(pre.files(), item.ext);
    assert forall|c: FileType| c != item.ext implies #[trigger] post.counters().spec_get(c)
        == pre.counters().spec_get(c) by {
        pre.counters().lemma_get_set(
            item.ext,
            counted(pre.counters().spec_get(item.ext), OutcomeView::Error(message), item.metadata.len, elapsed),
            c,
        );
    }
    pre.counters().lemma_get_set(
        item.ext,
        counted(pre.counters().spec_get(item.ext), OutcomeView::Error(message), item.metadata.len, elapsed),
        item.ext,
    );
    assert forall|e: (u64, usize)| post.non_success().contains(e) <==> pre.non_success().insert(
        (now, pre.slots()[w].file_idx),
    ).contains(e) by {
        if e.1 as int != i && e.1 < pre.files().len() {
            assert(post.files()[e.1 as int] == pre.files()[e.1 as int]);
        }
    }
    assert(post.non_success() =~= pre.non_success().insert((now, pre.slots()[w].file_idx)));
    assert forall|e: (u64, usize)| post.settled().contains(e) <==> pre.settled().contains(e) by {
        if e.1 as int != i && e.1 < pre.files().len() {
            assert(post.files()[e.1 as int] == pre.files()[e.1 as int]);
        }
    }
    assert(post.settled() =~= pre.settled());
}

} // verus!
