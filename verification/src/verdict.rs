//! What an attempt comes to, told in one piece: given everything that the
//! caller would find when it performed the requests, the verdict is a
//! function of the options, the file and those findings. The attempt of
//! [`crate::attempt`] reaches that verdict request by request, and asks only
//! for what the verdict depends on.

use vstd::prelude::*;
use crate::attempt::{
    begin_spec, encoder_failure, larger_not_deleted, AttemptView, Event,
    NextView, Stage, VerdictView,
};
use crate::cli::Conv2JxlArgs;
use crate::order::spec_same_path;
use crate::outcome::{FileEntry, OutcomeView};

verus! {

/// What running the encoder comes to.
pub enum Encoding {
    /// It ran and reported success.
    Succeeded,
    /// It ran and reported a failure, with this status and this text on its
    /// error stream.
    Exited { status: Seq<char>, stderr: Seq<char> },
    /// It could not be started, for this reason.
    NotRun(Seq<char>),
}

/// What the caller finds, or would find, when it performs the requests of an
/// attempt. A reason stands for a failure, its absence for success.
pub struct Findings {
    /// The output path exists.
    pub exists: bool,
    /// The width and height of the image, unless they cannot be read.
    pub dimensions: Option<(u32, u32)>,
    /// Why the source cannot be rewritten as PNG.
    pub reformat: Option<Seq<char>>,
    pub encode: Encoding,
    /// The output can be opened.
    pub opened: bool,
    /// The size of the output, unless it cannot be read.
    pub size: Option<u64>,
    /// Why the output cannot be removed.
    pub remove: Option<Seq<char>>,
    /// Why the times of the output cannot be set.
    pub set_times: Option<Seq<char>>,
    /// Why the source cannot be truncated.
    pub truncate: Option<Seq<char>>,
    /// Why the times of the truncated source cannot be set.
    pub source_times: Option<Seq<char>>,
    /// Why the source cannot be deleted.
    pub delete: Option<Seq<char>>,
}

/// The verdict that is an error of the given text.
pub open spec fn error(message: Seq<char>) -> VerdictView {
    VerdictView::Outcome(OutcomeView::Error(message))
}

/// The event is the report of an operation that fails for the reason `why`,
/// or succeeds where there is none.
pub open spec fn tells(event: Event, why: Option<Seq<char>>) -> bool {
    match why {
        None => event is Succeeded,
        Some(reason) => event matches Event::Failed(e) && e@ == reason,
    }
}

/// The event is what the caller reports for the request of `stage` when it
/// finds what `f` says.
pub open spec fn reports(event: Event, stage: Stage, f: Findings) -> bool {
    match stage {
        Stage::CheckOutput => event == Event::Exists(f.exists),
        Stage::Probe => match f.dimensions {
            Some((w, h)) => event == Event::Dimensions(w, h),
            None => event is Failed,
        },
        Stage::Reformat => tells(event, f.reformat),
        Stage::Encode => match f.encode {
            Encoding::Succeeded => event matches Event::Ran { success, .. } && success,
            Encoding::Exited { status, stderr } => event matches Event::Ran {
                success,
                status: s,
                stderr: t,
            } && !success && s@ == status && t@ == stderr,
            Encoding::NotRun(reason) => event matches Event::Failed(e) && e@ == reason,
        },
        Stage::OpenOutput => if f.opened {
            event is Succeeded
        } else {
            event is Failed
        },
        Stage::StatOutput => match f.size {
            Some(n) => event == Event::Size(n),
            None => event is Failed,
        },
        Stage::RemoveUnreadable => tells(event, f.remove),
        Stage::RemoveEmpty => tells(event, f.remove),
        Stage::RemoveInefficient => tells(event, f.remove),
        Stage::SetTimes => tells(event, f.set_times),
        Stage::TruncateSource => tells(event, f.truncate),
        Stage::SetSourceTimes => tells(event, f.source_times),
        Stage::DeleteSource => tells(event, f.delete),
    }
}

/// The dimensions are known and within the bounds.
pub open spec fn admitted(args: Conv2JxlArgs, dimensions: Option<(u32, u32)>) -> bool {
    match dimensions {
        Some((w, h)) => args.admits_dimensions(w, h),
        None => false,
    }
}

/// The warning of an accepted conversion, if any: the last shortfall among
/// the times of the output and the truncation or deletion of the source,
/// where that is asked for and the output is another file. Without a
/// shortfall there is no warning, on a second attempt as on a first.
pub open spec fn warning_of(args: Conv2JxlArgs, item: FileEntry, in_place: bool, f: Findings)
    -> Option<Seq<char>> {
    let times = if item.metadata.has_times() && f.set_times is Some {
        Some("Failed to set file times: "@ + f.set_times->0)
    } else {
        None
    };
    if (args.delete || args.truncate) && !in_place {
        if args.truncate {
            if f.truncate is Some {
                Some("Failed to open source file for truncation: "@ + f.truncate->0)
            } else if item.metadata.has_times() && f.source_times is Some {
                Some("Failed to set file times on truncated source file: "@ + f.source_times->0)
            } else {
                times
            }
        } else if f.delete is Some {
            Some("Failed to delete source file: "@ + f.delete->0)
        } else {
            times
        }
    } else {
        times
    }
}

/// What becomes of an output whose size is known, or known to be
/// unreadable: an unreadable and an empty output are removed and the file
/// has failed; an output beyond the accepted ratio is removed and rejected;
/// any other is kept, with a warning where something fell short afterwards.
pub open spec fn judged(args: Conv2JxlArgs, item: FileEntry, in_place: bool, f: Findings)
    -> VerdictView {
    let len = item.metadata.len;
    match f.size {
        None => match f.remove {
            Some(reason) => error(
                "Failed to get metadata for converted file and also failed to delete corrupted file: "@
                    + reason,
            ),
            None => error(
                "Failed to get metadata for converted file. The output file has been deleted."@,
            ),
        },
        Some(size) => {
            if size == 0 {
                match f.remove {
                    Some(reason) => error(
                        "Conversion produced an empty file, and failed to delete it: "@ + reason,
                    ),
                    None => error(
                        "Conversion produced an empty file. The empty file has been deleted."@,
                    ),
                }
            } else if args.min_ratio.exceeded_by(size, len) {
                match f.remove {
                    Some(reason) => error(larger_not_deleted(item.ext.spec_name(), reason)),
                    None => VerdictView::Rejected(size),
                }
            } else {
                VerdictView::Outcome(
                    match warning_of(args, item, in_place, f) {
                        Some(w) => OutcomeView::Warning(len, size, w),
                        None => OutcomeView::Success(len, size),
                    },
                )
            }
        },
    }
}

/// The verdict of an attempt on `item`, a first one or a second, when the
/// caller finds what `f` says; `in_place` says that the output path is the
/// source path. In this order: an existing output is skipped unless
/// overwriting is on; where bounds on the dimensions are set, unreadable
/// dimensions fail and dimensions outside the bounds are skipped; a source
/// that has to be rewritten and cannot be fails; a dry run succeeds with the
/// file's own length; an encoder that cannot be started or reports a failure
/// fails; an output that cannot be opened fails; the rest is as [`judged`].
pub open spec fn verdict_of(args: Conv2JxlArgs, item: FileEntry, in_place: bool, f: Findings)
    -> VerdictView {
    let len = item.metadata.len;
    if f.exists && !args.overwrite {
        VerdictView::Outcome(OutcomeView::Skipped)
    } else if args.has_bounds() && f.dimensions is None {
        error("Failed to read image dimensions."@)
    } else if args.has_bounds() && !admitted(args, f.dimensions) {
        VerdictView::Outcome(OutcomeView::Skipped)
    } else if item.ext.needs_conversion() && f.reformat is Some {
        error("Failed to convert image to PNG: "@ + f.reformat->0)
    } else if args.dry_run {
        VerdictView::Outcome(OutcomeView::Success(len, len))
    } else {
        match f.encode {
            Encoding::NotRun(reason) => error("Failed to execute conversion command: "@ + reason),
            Encoding::Exited { status, stderr } => error(encoder_failure(status, stderr)),
            Encoding::Succeeded => {
                if !f.opened {
                    error("Failed to open converted file for verification."@)
                } else {
                    judged(args, item, in_place, f)
                }
            },
        }
    }
}

/// The attempt `a` is on its way to the verdict of the findings `f`: where
/// it stands is where an attempt stands that has found what `f` says so far,
/// and what it has noted of the output is what `f` says.
pub open spec fn on_course(a: AttemptView, args: Conv2JxlArgs, item: FileEntry, f: Findings) -> bool {
    let len = item.metadata.len;
    let checked = !(f.exists && !args.overwrite);
    let probed = checked && (args.has_bounds() ==> admitted(args, f.dimensions));
    let ready = probed && (item.ext.needs_conversion() ==> f.reformat is None) && !args.dry_run;
    let stated = ready && f.encode is Succeeded && f.opened;
    let kept = stated && f.size is Some && f.size->0 != 0 && !args.min_ratio.exceeded_by(
        f.size->0,
        len,
    ) && a.output == f.size->0;
    let times = if item.metadata.has_times() && f.set_times is Some {
        Some("Failed to set file times: "@ + f.set_times->0)
    } else {
        None
    };
    let wanted = (args.delete || args.truncate) && !a.in_place;
    match a.stage {
        Stage::CheckOutput => true,
        Stage::Probe => checked && args.has_bounds(),
        Stage::Reformat => probed && item.ext.needs_conversion(),
        Stage::Encode => ready,
        Stage::OpenOutput => ready && f.encode is Succeeded,
        Stage::StatOutput => stated,
        Stage::RemoveUnreadable => stated && f.size is None,
        Stage::RemoveEmpty => stated && f.size == Some(0u64),
        Stage::RemoveInefficient => stated && f.size is Some && f.size->0 != 0
            && args.min_ratio.exceeded_by(f.size->0, len) && a.output == f.size->0,
        Stage::SetTimes => kept && item.metadata.has_times() && a.warning is None,
        Stage::TruncateSource => kept && wanted && args.truncate && a.warning == times,
        Stage::SetSourceTimes => kept && wanted && args.truncate && f.truncate is None
            && item.metadata.has_times() && a.warning == times,
        Stage::DeleteSource => kept && wanted && !args.truncate && a.warning == times,
    }
}

/// An attempt begins on course, whatever will be found.
pub proof fn lemma_begins_on_course(
    args: Conv2JxlArgs,
    item: FileEntry,
    quality: u8,
    second: bool,
    f: Findings,
)
    ensures
        on_course(begin_spec(args, item, quality, second), args, item, f),
{
}

/// One faithful report keeps an attempt on course, or ends it with the
/// verdict of the findings.
pub proof fn lemma_stays_on_course(
    a: AttemptView,
    args: Conv2JxlArgs,
    item: FileEntry,
    f: Findings,
    event: Event,
)
    requires
        on_course(a, args, item, f),
        reports(event, a.stage, f),
    ensures
        a.stage.answered_by(&event),
        match a.advance(args, item, event) {
            NextView::Perform(b) => on_course(b, args, item, f) && b.second == a.second
                && b.in_place == a.in_place && b.stage.rank() < a.stage.rank(),
            NextView::Finished(v) => v == verdict_of(args, item, a.in_place, f),
        },
{
}

/// What a run of reports brings an attempt to: the verdict with which it
/// ends, or nothing where the reports run out before it ends.
pub open spec fn run(a: AttemptView, args: Conv2JxlArgs, item: FileEntry, events: Seq<Event>)
    -> Option<VerdictView>
    decreases events.len(),
{
    if events.len() == 0 {
        None
    } else {
        match a.advance(args, item, events.first()) {
            NextView::Perform(b) => run(b, args, item, events.drop_first()),
            NextView::Finished(v) => Some(v),
        }
    }
}

/// Every report of the run is what the caller reports, for the request then
/// pending, when it finds what `f` says.
pub open spec fn faithful(
    a: AttemptView,
    args: Conv2JxlArgs,
    item: FileEntry,
    events: Seq<Event>,
    f: Findings,
) -> bool
    decreases events.len(),
{
    events.len() == 0 || (reports(events.first(), a.stage, f) && match a.advance(
        args,
        item,
        events.first(),
    ) {
        NextView::Perform(b) => faithful(b, args, item, events.drop_first(), f),
        NextView::Finished(_) => true,
    })
}

/// An attempt that is on course ends, after no more faithful reports than
/// the rank of its stage, with the verdict of the findings.
pub proof fn lemma_run_reaches_verdict(
    a: AttemptView,
    args: Conv2JxlArgs,
    item: FileEntry,
    events: Seq<Event>,
    f: Findings,
)
    requires
        on_course(a, args, item, f),
        faithful(a, args, item, events, f),
        events.len() >= a.stage.rank(),
    ensures
        run(a, args, item, events) == Some(verdict_of(args, item, a.in_place, f)),
    decreases events.len(),
{
    lemma_stays_on_course(a, args, item, f, events.first());
    match a.advance(args, item, events.first()) {
        NextView::Perform(b) => {
            lemma_run_reaches_verdict(b, args, item, events.drop_first(), f);
        },
        NextView::Finished(_) => {},
    }
}

/// Whatever the caller finds, an attempt that is given faithful reports,
/// nine at most, ends with the verdict of the findings.
pub proof fn lemma_attempt_reaches_verdict(
    args: Conv2JxlArgs,
    item: FileEntry,
    quality: u8,
    second: bool,
    events: Seq<Event>,
    f: Findings,
)
    requires
        faithful(begin_spec(args, item, quality, second), args, item, events, f),
        events.len() >= 9,
    ensures
        run(begin_spec(args, item, quality, second), args, item, events) == Some(
            verdict_of(
                args,
                item,
                spec_same_path(item.path@, item.spec_output_path(args.no_preserve_extension)),
                f,
            ),
        ),
{
    lemma_begins_on_course(args, item, quality, second, f);
    lemma_run_reaches_verdict(begin_spec(args, item, quality, second), args, item, events, f);
}

} // verus!
