//! One conversion attempt, as a dialogue: the attempt asks for one operation
//! on the file system or one run of an outside program at a time, the caller
//! performs it and reports what happened, and the attempt decides what
//! follows. The attempt itself touches nothing outside its own state.

use vstd::prelude::*;
use vstd::string::StringExecFns;
use crate::cli::{Conv2JxlArgs, FileType};
use crate::order::{same_path, spec_same_path};
use crate::outcome::{ConversionOutcome, FileEntry, OutcomeView};
use crate::text::{concat, concat3, trimmed};

verus! {

/// An operation that the caller performs for an attempt.
#[derive(Debug, Clone, Copy, PartialEq, Eq, Structural)]
pub enum Request {
    /// Find out whether the output path exists.
    CheckOutput,
    /// Read the dimensions of the source image without decoding it.
    Probe,
    /// Rewrite the source as a PNG file that the encoder can read. The
    /// rewritten file is removed when the attempt ends, however it ends.
    Reformat,
    /// Run the encoder on the source, or on the rewritten file if there is
    /// one, at the attempt's quality.
    Encode,
    /// Open the output file for writing.
    OpenOutput,
    /// Read the size of the output file.
    StatOutput,
    /// Delete the output file.
    RemoveOutput,
    /// Copy the source's times to the output file.
    SetTimes,
    /// Truncate the source file to zero length.
    TruncateSource,
    /// Restore the source's times after it was truncated.
    SetSourceTimes,
    /// Delete the source file.
    DeleteSource,
}

/// Where an attempt stands: which answer it is waiting for, and why.
#[derive(Debug, Clone, Copy, PartialEq, Eq, Structural)]
pub enum Stage {
    CheckOutput,
    Probe,
    Reformat,
    Encode,
    OpenOutput,
    StatOutput,
    /// Removing an output whose size could not be read.
    RemoveUnreadable,
    /// Removing an empty output.
    RemoveEmpty,
    /// Removing an output that is too large to keep.
    RemoveInefficient,
    SetTimes,
    TruncateSource,
    SetSourceTimes,
    DeleteSource,
}

/// What the caller reports after performing a request.
#[derive(Debug)]
pub enum Event {
    /// The answer to [`Request::CheckOutput`].
    Exists(bool),
    /// The width and height that [`Request::Probe`] found.
    Dimensions(u32, u32),
    /// The encoder ran and exited: whether its status was success, the
    /// status as text, and what it wrote to its error stream.
    Ran { success: bool, status: String, stderr: String },
    /// The size that [`Request::StatOutput`] found.
    Size(u64),
    /// The operation succeeded and has nothing more to report.
    Succeeded,
    /// The operation failed, with the reason as text.
    Failed(String),
}

impl Stage {
    /// The operation whose result the attempt waits for at this stage.
    pub open spec fn spec_request(self) -> Request {
        match self {
            Stage::CheckOutput => Request::CheckOutput,
            Stage::Probe => Request::Probe,
            Stage::Reformat => Request::Reformat,
            Stage::Encode => Request::Encode,
            Stage::OpenOutput => Request::OpenOutput,
            Stage::StatOutput => Request::StatOutput,
            Stage::RemoveUnreadable => Request::RemoveOutput,
            Stage::RemoveEmpty => Request::RemoveOutput,
            Stage::RemoveInefficient => Request::RemoveOutput,
            Stage::SetTimes => Request::SetTimes,
            Stage::TruncateSource => Request::TruncateSource,
            Stage::SetSourceTimes => Request::SetSourceTimes,
            Stage::DeleteSource => Request::DeleteSource,
        }
    }

    /// The operation whose result the attempt waits for at this stage.
    #[verifier::when_used_as_spec(spec_request)]
    pub fn request(self) -> (r: Request)
        ensures
            r == self.spec_request(),
    {
        match self {
            Stage::CheckOutput => Request::CheckOutput,
            Stage::Probe => Request::Probe,
            Stage::Reformat => Request::Reformat,
            Stage::Encode => Request::Encode,
            Stage::OpenOutput => Request::OpenOutput,
            Stage::StatOutput => Request::StatOutput,
            Stage::RemoveUnreadable => Request::RemoveOutput,
            Stage::RemoveEmpty => Request::RemoveOutput,
            Stage::RemoveInefficient => Request::RemoveOutput,
            Stage::SetTimes => Request::SetTimes,
            Stage::TruncateSource => Request::TruncateSource,
            Stage::SetSourceTimes => Request::SetSourceTimes,
            Stage::DeleteSource => Request::DeleteSource,
        }
    }

    /// The event is a possible result of the operation of this stage.
    pub open spec fn spec_answered_by(self, event: &Event) -> bool {
        match self {
            Stage::CheckOutput => event is Exists,
            Stage::Probe => event is Dimensions || event is Failed,
            Stage::Encode => event is Ran || event is Failed,
            Stage::StatOutput => event is Size || event is Failed,
            _ => event is Succeeded || event is Failed,
        }
    }

    /// Whether the event is a possible result of the operation of this
    /// stage.
    #[verifier::when_used_as_spec(spec_answered_by)]
    pub fn answered_by(self, event: &Event) -> (r: bool)
        ensures
            r == self.spec_answered_by(event),
    {
        match self {
            Stage::CheckOutput => matches!(event, Event::Exists(_)),
            Stage::Probe => matches!(event, Event::Dimensions(..) | Event::Failed(_)),
            Stage::Encode => matches!(event, Event::Ran { .. } | Event::Failed(_)),
            Stage::StatOutput => matches!(event, Event::Size(_) | Event::Failed(_)),
            _ => matches!(event, Event::Succeeded | Event::Failed(_)),
        }
    }

    /// How far the stage is from the end of the attempt: every answered
    /// request leads to a stage of lower rank, or ends the attempt.
    pub open spec fn rank(self) -> nat {
        match self {
            Stage::CheckOutput => 9,
            Stage::Probe => 8,
            Stage::Reformat => 7,
            Stage::Encode => 6,
            Stage::OpenOutput => 5,
            Stage::StatOutput => 4,
            Stage::RemoveUnreadable => 3,
            Stage::RemoveEmpty => 3,
            Stage::RemoveInefficient => 3,
            Stage::SetTimes => 3,
            Stage::TruncateSource => 2,
            Stage::SetSourceTimes => 1,
            Stage::DeleteSource => 1,
        }
    }
}

/// The state of an attempt that waits for an answer.
#[derive(Debug)]
pub struct Attempt {
    /// The quality that the encoder is run at.
    pub quality: u8,
    /// This is the second attempt on the file, made at the fallback quality.
    pub second: bool,
    /// The output path is the source path.
    pub in_place: bool,
    pub stage: Stage,
    /// The size of the output, once it is known.
    pub output: u64,
    /// The warning that the outcome will carry, if any.
    pub warning: Option<String>,
}

/// An [`Attempt`] with its warning as a sequence of characters.
pub struct AttemptView {
    pub quality: u8,
    pub second: bool,
    pub in_place: bool,
    pub stage: Stage,
    pub output: u64,
    pub warning: Option<Seq<char>>,
}

impl View for Attempt {
    type V = AttemptView;

    open spec fn view(&self) -> AttemptView {
        AttemptView {
            quality: self.quality,
            second: self.second,
            in_place: self.in_place,
            stage: self.stage,
            output: self.output,
            warning: match self.warning {
                Some(w) => Some(w@),
                None => None,
            },
        }
    }
}

/// How an attempt ended.
#[derive(Debug)]
pub enum Verdict {
    /// The file is done, with this outcome.
    Outcome(ConversionOutcome),
    /// The output, of the given size, was too large and has been removed.
    /// Whether the file is tried again is for the retry policy to say.
    Rejected(u64),
}

/// A [`Verdict`] over the view of the outcome.
pub enum VerdictView {
    Outcome(OutcomeView),
    Rejected(u64),
}

impl View for Verdict {
    type V = VerdictView;

    open spec fn view(&self) -> VerdictView {
        match self {
            Verdict::Outcome(o) => VerdictView::Outcome(o@),
            Verdict::Rejected(n) => VerdictView::Rejected(*n),
        }
    }
}

/// What follows an answer: the attempt goes on and waits for the result of
/// its next request, or it has ended.
#[derive(Debug)]
pub enum Next {
    Perform(Attempt),
    Finished(Verdict),
}

/// A [`Next`] over the views of what it holds.
pub enum NextView {
    Perform(AttemptView),
    Finished(VerdictView),
}

impl View for Next {
    type V = NextView;

    open spec fn view(&self) -> NextView {
        match self {
            Next::Perform(a) => NextView::Perform(a@),
            Next::Finished(v) => NextView::Finished(v@),
        }
    }
}

/// The attempt ends with an error of the given text.
pub open spec fn failed(message: Seq<char>) -> NextView {
    NextView::Finished(VerdictView::Outcome(OutcomeView::Error(message)))
}

/// The error text for an encoder that exited with a failure status.
pub open spec fn encoder_failure(status: Seq<char>, stderr: Seq<char>) -> Seq<char> {
    "Conversion command failed with "@ + status + ": "@ + trimmed(stderr)
}

/// The error text for an output that is too large and could not be removed.
pub open spec fn larger_not_deleted(ext: Seq<char>, reason: Seq<char>) -> Seq<char> {
    "Converted file is larger than the original '"@ + ext + "', and failed to delete it: "@
        + reason + "."@
}

impl AttemptView {
    pub open spec fn at(self, stage: Stage) -> AttemptView {
        AttemptView { stage, ..self }
    }

    /// What follows once the output path is known to be free, or
    /// overwriting is allowed.
    pub open spec fn after_check(self, args: Conv2JxlArgs, item: FileEntry) -> NextView {
        if args.has_bounds() {
            NextView::Perform(self.at(Stage::Probe))
        } else {
            self.after_probe(args, item)
        }
    }

    /// What follows once the dimensions are known to be acceptable.
    pub open spec fn after_probe(self, args: Conv2JxlArgs, item: FileEntry) -> NextView {
        if item.ext.needs_conversion() {
            NextView::Perform(self.at(Stage::Reformat))
        } else {
            self.after_reformat(args, item)
        }
    }

    /// What follows once the encoder's input is ready: in a dry run the file
    /// counts as converted to its own size, else the encoder is run.
    pub open spec fn after_reformat(self, args: Conv2JxlArgs, item: FileEntry) -> NextView {
        if args.dry_run {
            NextView::Finished(
                VerdictView::Outcome(OutcomeView::Success(item.metadata.len, item.metadata.len)),
            )
        } else {
            NextView::Perform(self.at(Stage::Encode))
        }
    }

    /// What follows once the output's size is known: an empty output and one
    /// that exceeds the accepted ratio are removed, any other is kept. An
    /// output that is kept starts without a warning, on a second attempt as
    /// on a first.
    pub open spec fn after_stat(self, args: Conv2JxlArgs, item: FileEntry, size: u64) -> NextView {
        if size == 0 {
            NextView::Perform(self.at(Stage::RemoveEmpty))
        } else if args.min_ratio.exceeded_by(size, item.metadata.len) {
            NextView::Perform(AttemptView { output: size, ..self.at(Stage::RemoveInefficient) })
        } else {
            (AttemptView { output: size, warning: None, ..self }).accepted(args, item)
        }
    }

    /// What follows once the output is accepted: the source's times are
    /// copied to it where they are known.
    pub open spec fn accepted(self, args: Conv2JxlArgs, item: FileEntry) -> NextView {
        if item.metadata.has_times() {
            NextView::Perform(self.at(Stage::SetTimes))
        } else {
            self.after_times(args, item)
        }
    }

    /// What follows once the output has its times: the source is truncated
    /// or deleted where that is asked for and the output is another file.
    pub open spec fn after_times(self, args: Conv2JxlArgs, item: FileEntry) -> NextView {
        if (args.delete || args.truncate) && !self.in_place {
            if args.truncate {
                NextView::Perform(self.at(Stage::TruncateSource))
            } else {
                NextView::Perform(self.at(Stage::DeleteSource))
            }
        } else {
            self.finish(item)
        }
    }

    /// The attempt with its warning replaced.
    pub open spec fn warned(self, message: Seq<char>) -> AttemptView {
        AttemptView { warning: Some(message), ..self }
    }

    /// The end of an accepted attempt: a success, or a warning where some
    /// step after the conversion fell short.
    pub open spec fn finish(self, item: FileEntry) -> NextView {
        NextView::Finished(
            VerdictView::Outcome(
                match self.warning {
                    Some(w) => OutcomeView::Warning(item.metadata.len, self.output, w),
                    None => OutcomeView::Success(item.metadata.len, self.output),
                },
            ),
        )
    }

    /// What follows the report `event`. An event that is no possible result
    /// of the pending request changes nothing: the attempt still waits.
    pub open spec fn advance(self, args: Conv2JxlArgs, item: FileEntry, event: Event) -> NextView {
        if !self.stage.answered_by(&event) {
            NextView::Perform(self)
        } else {
            match self.stage {
                Stage::CheckOutput => {
                    if event->Exists_0 && !args.overwrite {
                        NextView::Finished(VerdictView::Outcome(OutcomeView::Skipped))
                    } else {
                        self.after_check(args, item)
                    }
                },
                Stage::Probe => match event {
                    Event::Dimensions(w, h) => {
                        if args.admits_dimensions(w, h) {
                            self.after_probe(args, item)
                        } else {
                            NextView::Finished(VerdictView::Outcome(OutcomeView::Skipped))
                        }
                    },
                    _ => failed("Failed to read image dimensions."@),
                },
                Stage::Reformat => match event {
                    Event::Failed(e) => failed("Failed to convert image to PNG: "@ + e@),
                    _ => self.after_reformat(args, item),
                },
                Stage::Encode => match event {
                    Event::Ran { success, status, stderr } => {
                        if success {
                            NextView::Perform(self.at(Stage::OpenOutput))
                        } else {
                            failed(encoder_failure(status@, stderr@))
                        }
                    },
                    Event::Failed(e) => failed("Failed to execute conversion command: "@ + e@),
                    _ => NextView::Perform(self),
                },
                Stage::OpenOutput => match event {
                    Event::Failed(_) => failed("Failed to open converted file for verification."@),
                    _ => NextView::Perform(self.at(Stage::StatOutput)),
                },
                Stage::StatOutput => match event {
                    Event::Size(n) => self.after_stat(args, item, n),
                    _ => NextView::Perform(self.at(Stage::RemoveUnreadable)),
                },
                Stage::RemoveUnreadable => match event {
                    Event::Failed(e) => failed(
                        "Failed to get metadata for converted file and also failed to delete corrupted file: "@
                            + e@,
                    ),
                    _ => failed(
                        "Failed to get metadata for converted file. The output file has been deleted."@,
                    ),
                },
                Stage::RemoveEmpty => match event {
                    Event::Failed(e) => failed(
                        "Conversion produced an empty file, and failed to delete it: "@ + e@,
                    ),
                    _ => failed(
                        "Conversion produced an empty file. The empty file has been deleted."@,
                    ),
                },
                Stage::RemoveInefficient => match event {
                    Event::Failed(e) => failed(larger_not_deleted(item.ext.spec_name(), e@)),
                    _ => NextView::Finished(VerdictView::Rejected(self.output)),
                },
                Stage::SetTimes => match event {
                    Event::Failed(e) => self.warned("Failed to set file times: "@ + e@).after_times(
                        args,
                        item,
                    ),
                    _ => self.after_times(args, item),
                },
                Stage::TruncateSource => match event {
                    Event::Failed(e) => self.warned(
                        "Failed to open source file for truncation: "@ + e@,
                    ).finish(item),
                    _ => {
                        if item.metadata.has_times() {
                            NextView::Perform(self.at(Stage::SetSourceTimes))
                        } else {
                            self.finish(item)
                        }
                    },
                },
                Stage::SetSourceTimes => match event {
                    Event::Failed(e) => self.warned(
                        "Failed to set file times on truncated source file: "@ + e@,
                    ).finish(item),
                    _ => self.finish(item),
                },
                Stage::DeleteSource => match event {
                    Event::Failed(e) => self.warned("Failed to delete source file: "@ + e@).finish(
                        item,
                    ),
                    _ => self.finish(item),
                },
            }
        }
    }
}

/// The state in which an attempt on `item` at the given quality begins, the
/// output being written to `output`: it first asks whether the output path
/// exists.
pub open spec fn begin_at_spec(item: FileEntry, quality: u8, second: bool, output: Seq<char>)
    -> AttemptView {
    AttemptView {
        quality,
        second,
        in_place: spec_same_path(item.path@, output),
        stage: Stage::CheckOutput,
        output: 0,
        warning: None,
    }
}

/// The state in which an attempt on `item` at the given quality begins.
pub open spec fn begin_spec(args: Conv2JxlArgs, item: FileEntry, quality: u8, second: bool)
    -> AttemptView {
    begin_at_spec(item, quality, second, item.spec_output_path(args.no_preserve_extension))
}

/// An attempt that ends with an error of the given text.
fn fail(message: String) -> (r: Next)
    ensures
        r@ == failed(message@),
{
    Next::Finished(Verdict::Outcome(ConversionOutcome::Error(message)))
}

impl Attempt {
    /// Begins an attempt on `item` at the given quality; `second` says that
    /// it is the retry at the fallback quality.
    pub fn begin(args: &Conv2JxlArgs, item: &FileEntry, quality: u8, second: bool) -> (r: Attempt)
        ensures
            r@ == begin_spec(*args, *item, quality, second),
    {
        let output = item.output_path(args.no_preserve_extension);
        Attempt::begin_at(item, quality, second, output.as_str())
    }

    /// Begins an attempt on `item` whose output is written to the path
    /// `output`. The attempt notes whether that is the path of the source,
    /// as paths are compared: by their components.
    pub fn begin_at(item: &FileEntry, quality: u8, second: bool, output: &str) -> (r: Attempt)
        ensures
            r@ == begin_at_spec(*item, quality, second, output@),
    {
        let in_place = same_path(item.path.as_str(), output);
        Attempt { quality, second, in_place, stage: Stage::CheckOutput, output: 0, warning: None }
    }

    /// The operation whose result the attempt waits for.
    pub fn request(&self) -> (r: Request)
        ensures
            r == self@.stage.spec_request(),
    {
        self.stage.request()
    }

    fn at(self, stage: Stage) -> (r: Attempt)
        ensures
            r@ == self@.at(stage),
    {
        Attempt { stage, ..self }
    }

    fn warned(self, message: String) -> (r: Attempt)
        ensures
            r@ == self@.warned(message@),
    {
        Attempt { warning: Some(message), ..self }
    }

    fn after_check(self, args: &Conv2JxlArgs, item: &FileEntry) -> (r: Next)
        ensures
            r@ == self@.after_check(*args, *item),
    {
        if args.has_bounds() {
            Next::Perform(self.at(Stage::Probe))
        } else {
            self.after_probe(args, item)
        }
    }

    fn after_probe(self, args: &Conv2JxlArgs, item: &FileEntry) -> (r: Next)
        ensures
            r@ == self@.after_probe(*args, *item),
    {
        if item.ext.needs_conversion() {
            Next::Perform(self.at(Stage::Reformat))
        } else {
            self.after_reformat(args, item)
        }
    }

    fn after_reformat(self, args: &Conv2JxlArgs, item: &FileEntry) -> (r: Next)
        ensures
            r@ == self@.after_reformat(*args, *item),
    {
        if args.dry_run {
            Next::Finished(
                Verdict::Outcome(ConversionOutcome::Success(item.metadata.len, item.metadata.len)),
            )
        } else {
            Next::Perform(self.at(Stage::Encode))
        }
    }

    fn after_stat(self, args: &Conv2JxlArgs, item: &FileEntry, size: u64) -> (r: Next)
        ensures
            r@ == self@.after_stat(*args, *item, size),
    {
        if size == 0 {
            Next::Perform(self.at(Stage::RemoveEmpty))
        } else if args.min_ratio.exceeded_by(size, item.metadata.len) {
            Next::Perform(Attempt { output: size, stage: Stage::RemoveInefficient, ..self })
        } else {
            (Attempt { output: size, warning: None, ..self }).accepted(args, item)
        }
    }

    fn accepted(self, args: &Conv2JxlArgs, item: &FileEntry) -> (r: Next)
        ensures
            r@ == self@.accepted(*args, *item),
    {
        if item.metadata.has_times() {
            Next::Perform(self.at(Stage::SetTimes))
        } else {
            self.after_times(args, item)
        }
    }

    fn after_times(self, args: &Conv2JxlArgs, item: &FileEntry) -> (r: Next)
        ensures
            r@ == self@.after_times(*args, *item),
    {
        if (args.delete || args.truncate) && !self.in_place {
            if args.truncate {
                Next::Perform(self.at(Stage::TruncateSource))
            } else {
                Next::Perform(self.at(Stage::DeleteSource))
            }
        } else {
            self.finish(item)
        }
    }

    fn finish(self, item: &FileEntry) -> (r: Next)
        ensures
            r@ == self@.finish(*item),
    {
        Next::Finished(
            Verdict::Outcome(
                match self.warning {
                    Some(w) => ConversionOutcome::Warning(item.metadata.len, self.output, w),
                    None => ConversionOutcome::Success(item.metadata.len, self.output),
                },
            ),
        )
    }

    fn advance_encode(self, args: &Conv2JxlArgs, item: &FileEntry, event: Event) -> (r: Next)
        requires
            self.stage == Stage::Encode,
            self.stage.answered_by(&event),
        ensures
            r@ == self@.advance(*args, *item, event),
    {
        match event {
            Event::Ran { success, status, stderr } => {
                if success {
                    Next::Perform(self.at(Stage::OpenOutput))
                } else {
                    let mut message = concat3(
                        "Conversion command failed with ",
                        status.as_str(),
                        ": ",
                    );
                    message.append(stderr.as_str().trim());
                    fail(message)
                }
            },
            Event::Failed(e) => fail(concat("Failed to execute conversion command: ", e.as_str())),
            _ => Next::Perform(self),
        }
    }

    fn advance_remove(self, args: &Conv2JxlArgs, item: &FileEntry, event: Event) -> (r: Next)
        requires
            self.stage == Stage::RemoveUnreadable || self.stage == Stage::RemoveEmpty || self.stage
                == Stage::RemoveInefficient,
            self.stage.answered_by(&event),
        ensures
            r@ == self@.advance(*args, *item, event),
    {
        match self.stage {
            Stage::RemoveUnreadable => match event {
                Event::Failed(e) => fail(
                    concat(
                        "Failed to get metadata for converted file and also failed to delete corrupted file: ",
                        e.as_str(),
                    ),
                ),
                _ => fail(
                    "Failed to get metadata for converted file. The output file has been deleted.".to_owned(),
                ),
            },
            Stage::RemoveEmpty => match event {
                Event::Failed(e) => fail(
                    concat(
                        "Conversion produced an empty file, and failed to delete it: ",
                        e.as_str(),
                    ),
                ),
                _ => fail(
                    "Conversion produced an empty file. The empty file has been deleted.".to_owned(),
                ),
            },
            _ => match event {
                Event::Failed(e) => {
                    let mut message = concat3(
                        "Converted file is larger than the original '",
                        item.ext.name(),
                        "', and failed to delete it: ",
                    );
                    message.append(e.as_str());
                    message.append(".");
                    fail(message)
                },
                _ => Next::Finished(Verdict::Rejected(self.output)),
            },
        }
    }

    fn advance_accepted(self, args: &Conv2JxlArgs, item: &FileEntry, event: Event) -> (r: Next)
        requires
            self.stage == Stage::SetTimes || self.stage == Stage::TruncateSource || self.stage
                == Stage::SetSourceTimes || self.stage == Stage::DeleteSource,
            self.stage.answered_by(&event),
        ensures
            r@ == self@.advance(*args, *item, event),
    {
        match self.stage {
            Stage::SetTimes => match event {
                Event::Failed(e) => self.warned(
                    concat("Failed to set file times: ", e.as_str()),
                ).after_times(args, item),
                _ => self.after_times(args, item),
            },
            Stage::TruncateSource => match event {
                Event::Failed(e) => self.warned(
                    concat("Failed to open source file for truncation: ", e.as_str()),
                ).finish(item),
                _ => {
                    if item.metadata.has_times() {
                        Next::Perform(self.at(Stage::SetSourceTimes))
                    } else {
                        self.finish(item)
                    }
                },
            },
            Stage::SetSourceTimes => match event {
                Event::Failed(e) => self.warned(
                    concat("Failed to set file times on truncated source file: ", e.as_str()),
                ).finish(item),
                _ => self.finish(item),
            },
            _ => match event {
                Event::Failed(e) => self.warned(
                    concat("Failed to delete source file: ", e.as_str()),
                ).finish(item),
                _ => self.finish(item),
            },
        }
    }

    /// Takes the report of the pending request and decides what follows:
    /// the next request, or the end of the attempt. A report that is no
    /// possible result of the pending request is ignored.
    pub fn advance(self, args: &Conv2JxlArgs, item: &FileEntry, event: Event) -> (r: Next)
        ensures
            r@ == self@.advance(*args, *item, event),
    {
        if !self.stage.answered_by(&event) {
            return Next::Perform(self);
        }
        match self.stage {
            Stage::CheckOutput => match event {
                Event::Exists(exists) => {
                    if exists && !args.overwrite {
                        Next::Finished(Verdict::Outcome(ConversionOutcome::Skipped))
                    } else {
                        self.after_check(args, item)
                    }
                },
                _ => Next::Perform(self),
            },
            Stage::Probe => match event {
                Event::Dimensions(w, h) => {
                    if args.admits_dimensions(w, h) {
                        self.after_probe(args, item)
                    } else {
                        Next::Finished(Verdict::Outcome(ConversionOutcome::Skipped))
                    }
                },
                _ => fail("Failed to read image dimensions.".to_owned()),
            },
            Stage::Reformat => match event {
                Event::Failed(e) => fail(concat("Failed to convert image to PNG: ", e.as_str())),
                _ => self.after_reformat(args, item),
            },
            Stage::Encode => self.advance_encode(args, item, event),
            Stage::OpenOutput => match event {
                Event::Failed(_) => fail(
                    "Failed to open converted file for verification.".to_owned(),
                ),
                _ => Next::Perform(self.at(Stage::StatOutput)),
            },
            Stage::StatOutput => match event {
                Event::Size(n) => self.after_stat(args, item, n),
                _ => Next::Perform(self.at(Stage::RemoveUnreadable)),
            },
            Stage::RemoveUnreadable | Stage::RemoveEmpty | Stage::RemoveInefficient => {
                self.advance_remove(args, item, event)
            },
            _ => self.advance_accepted(args, item, event),
        }
    }
}

/// Files of this type are converted without loss whatever quality is asked
/// for: JPEG files, while lossless recompression is switched on.
pub open spec fn forces_lossless(args: Conv2JxlArgs, ext: FileType) -> bool {
    args.lossless_jpeg && ext == FileType::JPEG
}

/// The quality of the first attempt on a file of type `ext`.
pub open spec fn spec_first_quality(args: Conv2JxlArgs, ext: FileType) -> u8 {
    if forces_lossless(args, ext) {
        100
    } else {
        args.quality
    }
}

/// The quality of a further attempt on `item`, after an attempt at quality
/// `used` was rejected as inefficient; `second` says that the rejected
/// attempt was itself the retry. There is at most one retry, and only where
/// the file's type is not forced to lossless, a fallback quality is set and
/// is lower than the quality just used, and the file is at least as large as
/// the smallest size for a retry.
pub open spec fn spec_retry_quality(args: Conv2JxlArgs, item: FileEntry, used: u8, second: bool)
    -> Option<u8> {
    if second || forces_lossless(args, item.ext) {
        None
    } else {
        match args.quality_if_inefficient {
            Some(fallback) => {
                let floor = match args.min_inefficient_size {
                    Some(size) => size,
                    None => 0,
                };
                if fallback < used && item.metadata.len >= floor {
                    Some(fallback)
                } else {
                    None
                }
            },
            None => None,
        }
    }
}

/// The quality of the first attempt on a file of type `ext`.
pub fn first_quality(args: &Conv2JxlArgs, ext: FileType) -> (r: u8)
    ensures
        r == spec_first_quality(*args, ext),
{
    if args.lossless_jpeg && matches!(ext, FileType::JPEG) {
        100
    } else {
        args.quality
    }
}

/// Decides whether `item` is tried again after an attempt at quality `used`
/// was rejected, and at which quality.
pub fn retry_quality(args: &Conv2JxlArgs, item: &FileEntry, used: u8, second: bool) -> (r: Option<
    u8,
>)
    ensures
        r == spec_retry_quality(*args, *item, used, second),
{
    if second || (args.lossless_jpeg && matches!(item.ext, FileType::JPEG)) {
        return None;
    }
    match args.quality_if_inefficient {
        Some(fallback) => {
            let floor = match args.min_inefficient_size {
                Some(size) => size,
                None => 0,
            };
            if fallback < used && item.metadata.len >= floor {
                Some(fallback)
            } else {
                None
            }
        },
        None => None,
    }
}

/// A file is tried at most twice, the second time at a strictly lower
/// quality: a rejected retry is never followed by another attempt.
pub proof fn lemma_retry_bound(args: Conv2JxlArgs, item: FileEntry, used: u8, second: bool)
    ensures
        second ==> spec_retry_quality(args, item, used, second) is None,
        spec_retry_quality(args, item, used, second) matches Some(q) ==> q < used && Some(q)
            == args.quality_if_inefficient,
{
}

/// A rejected first attempt is followed by a retry whenever a fallback
/// quality below the quality used is set, the file is at least as large as
/// the smallest size for a retry, and its type is not forced to lossless.
pub proof fn lemma_retry_owed(args: Conv2JxlArgs, item: FileEntry, used: u8, fallback: u8)
    requires
        args.quality_if_inefficient == Some(fallback),
        fallback < used,
        args.min_inefficient_size matches Some(floor) ==> item.metadata.len >= floor,
        !forces_lossless(args, item.ext),
    ensures
        spec_retry_quality(args, item, used, false) == Some(fallback),
{
}

/// A file whose type is forced to lossless is tried once, at quality 100,
/// whatever fallback is set.
pub proof fn lemma_lossless_never_retries(args: Conv2JxlArgs, item: FileEntry, used: u8, second: bool)
    requires
        forces_lossless(args, item.ext),
    ensures
        spec_first_quality(args, item.ext) == 100,
        spec_retry_quality(args, item, used, second) is None,
{
}

/// Whatever an attempt reports as the size of its input is the length of
/// the file.
pub proof fn lemma_outcome_reports_length(
    a: AttemptView,
    args: Conv2JxlArgs,
    item: FileEntry,
    event: Event,
)
    ensures
        a.advance(args, item, event) matches NextView::Finished(VerdictView::Outcome(o)) ==> (
        match o {
            OutcomeView::Success(input, _) => input == item.metadata.len,
            OutcomeView::Warning(input, _, _) => input == item.metadata.len,
            OutcomeView::Inefficient(_, _) => false,
            _ => true,
        }),
{
}

impl Stage {
    /// The stages that come before the encoder is run.
    pub open spec fn before_encoding(self) -> bool {
        self == Stage::CheckOutput || self == Stage::Probe || self == Stage::Reformat
    }
}

/// Every answered request brings the attempt nearer to its end: it either
/// ends, or goes on at a stage of strictly lower rank. An attempt therefore
/// makes at most nine requests.
pub proof fn lemma_attempt_progress(a: AttemptView, args: Conv2JxlArgs, item: FileEntry, event: Event)
    requires
        a.stage.answered_by(&event),
    ensures
        a.advance(args, item, event) matches NextView::Perform(b) ==> b.stage.rank()
            < a.stage.rank(),
{
}

/// A report that does not answer the pending request leaves the attempt as
/// it is.
pub proof fn lemma_attempt_ignores_stray_events(
    a: AttemptView,
    args: Conv2JxlArgs,
    item: FileEntry,
    event: Event,
)
    requires
        !a.stage.answered_by(&event),
    ensures
        a.advance(args, item, event) == NextView::Perform(a),
{
}

/// In a dry run the encoder is never asked for: an attempt that has not
/// reached the encoder stays before it, and it ends as skipped, as failed
/// while preparing, or as a success that reports the source's size for both
/// input and output.
pub proof fn lemma_dry_run_never_encodes(
    a: AttemptView,
    args: Conv2JxlArgs,
    item: FileEntry,
    event: Event,
)
    requires
        args.dry_run,
        a.stage.before_encoding(),
    ensures
        match a.advance(args, item, event) {
            NextView::Perform(b) => b.stage.before_encoding() && b.stage.spec_request()
                != Request::Encode,
            NextView::Finished(VerdictView::Outcome(o)) => o is Skipped || o is Error || o
                == OutcomeView::Success(item.metadata.len, item.metadata.len),
            NextView::Finished(VerdictView::Rejected(_)) => false,
        },
{
}

/// An output is rejected exactly when its removal succeeded after its size
/// was found to exceed the accepted ratio; the verdict carries that size.
pub proof fn lemma_rejected_after_removal(
    a: AttemptView,
    args: Conv2JxlArgs,
    item: FileEntry,
    event: Event,
)
    ensures
        a.advance(args, item, event) is Finished && a.advance(args, item, event)->Finished_0
            is Rejected <==> a.stage == Stage::RemoveInefficient && event is Succeeded,
        a.stage == Stage::RemoveInefficient && event is Succeeded ==> a.advance(args, item, event)
            == NextView::Finished(VerdictView::Rejected(a.output)),
{
}

/// The size of an output decides alone whether it is removed as too large:
/// it is, exactly when it is not empty and `size * den > len * num` for the
/// accepted ratio `num / den` and the source's length `len`. An output at the
/// ratio itself is kept.
pub proof fn lemma_ratio_boundary(a: AttemptView, args: Conv2JxlArgs, item: FileEntry, size: u64)
    requires
        a.stage == Stage::StatOutput,
    ensures
        (a.advance(args, item, Event::Size(size)) matches NextView::Perform(b) && b.stage
            == Stage::RemoveInefficient) <==> (size != 0 && size * args.min_ratio.den
            > item.metadata.len * args.min_ratio.num),
        a.advance(args, item, Event::Size(size)) matches NextView::Perform(b) ==> (b.stage
            == Stage::RemoveInefficient ==> b.output == size),
{
}

} // verus!
