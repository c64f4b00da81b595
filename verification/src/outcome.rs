//! Work items and their write-once outcomes.

use vstd::prelude::*;
use crate::cli::FileType;
use crate::text::concat;

verus! {

/// What `Path::with_extension` makes of a path and a new extension.
pub uninterp spec fn path_with_extension(path: Seq<char>, extension: Seq<char>) -> Seq<char>;

/// No character of the text separates the parts of a path.
pub open spec fn has_no_separator(s: Seq<char>) -> bool {
    forall|i: int| 0 <= i < s.len() ==> #[trigger] s[i] != '/' && s[i] != '\\'
}

/// `Path::with_extension`: the path with its extension replaced, or added
/// where it had none. The result is named [`path_with_extension`]. An
/// extension with a path separator in it is not accepted.
#[verifier::external_body]
fn with_extension(path: &str, extension: &str) -> (r: String)
    requires
        has_no_separator(extension@),
    ensures
        r@ == path_with_extension(path@, extension@),
{
    std::path::Path::new(path).with_extension(extension).to_string_lossy().into_owned()
}

/// The final result of converting one file. It is recorded once and never
/// changed.
#[derive(Debug)]
pub enum ConversionOutcome {
    /// input size, output size
    Success(u64, u64),
    /// input size, output size, warning message
    Warning(u64, u64, String),
    Skipped,
    /// error message
    Error(String),
    /// input size, output size
    Inefficient(u64, u64),
}

/// A [`ConversionOutcome`] with its messages as sequences of characters.
pub enum OutcomeView {
    Success(u64, u64),
    Warning(u64, u64, Seq<char>),
    Skipped,
    Error(Seq<char>),
    Inefficient(u64, u64),
}

impl View for ConversionOutcome {
    type V = OutcomeView;

    open spec fn view(&self) -> OutcomeView {
        match self {
            ConversionOutcome::Success(i, o) => OutcomeView::Success(*i, *o),
            ConversionOutcome::Warning(i, o, w) => OutcomeView::Warning(*i, *o, w@),
            ConversionOutcome::Skipped => OutcomeView::Skipped,
            ConversionOutcome::Error(e) => OutcomeView::Error(e@),
            ConversionOutcome::Inefficient(i, o) => OutcomeView::Inefficient(*i, *o),
        }
    }
}

impl Clone for ConversionOutcome {
    fn clone(&self) -> (r: Self)
        ensures
            r@ == self@,
    {
        match self {
            ConversionOutcome::Success(i, o) => ConversionOutcome::Success(*i, *o),
            ConversionOutcome::Warning(i, o, w) => ConversionOutcome::Warning(*i, *o, w.clone()),
            ConversionOutcome::Skipped => ConversionOutcome::Skipped,
            ConversionOutcome::Error(e) => ConversionOutcome::Error(e.clone()),
            ConversionOutcome::Inefficient(i, o) => ConversionOutcome::Inefficient(*i, *o),
        }
    }
}

impl ConversionOutcome {
    /// The file was converted and the output kept.
    pub open spec fn spec_is_converted(&self) -> bool {
        self is Success || self is Warning
    }

    /// Whether the output was kept, with or without a warning.
    #[verifier::when_used_as_spec(spec_is_converted)]
    pub fn is_converted(&self) -> (r: bool)
        ensures
            r == self.spec_is_converted(),
    {
        matches!(self, ConversionOutcome::Success(..) | ConversionOutcome::Warning(..))
    }

    /// The file is settled: converted, with or without a warning, or
    /// skipped.
    pub open spec fn spec_is_settled(&self) -> bool {
        self is Success || self is Warning || self is Skipped
    }

    /// Whether the file is converted or skipped.
    #[verifier::when_used_as_spec(spec_is_settled)]
    pub fn is_settled(&self) -> (r: bool)
        ensures
            r == self.spec_is_settled(),
    {
        matches!(
            self,
            ConversionOutcome::Success(..) | ConversionOutcome::Warning(..)
                | ConversionOutcome::Skipped
        )
    }

    /// The outcome asks for the user's attention: anything but a plain
    /// success.
    pub open spec fn spec_needs_attention(&self) -> bool {
        !(self is Success)
    }

    /// Whether the outcome is listed among the items that need attention.
    #[verifier::when_used_as_spec(spec_needs_attention)]
    pub fn needs_attention(&self) -> (r: bool)
        ensures
            r == self.spec_needs_attention(),
    {
        !matches!(self, ConversionOutcome::Success(..))
    }

    /// The file's bytes no longer count towards the bytes to convert.
    pub open spec fn spec_is_excluded(&self) -> bool {
        self is Error || self is Inefficient
    }

    /// Whether the outcome takes the file out of the byte budget.
    #[verifier::when_used_as_spec(spec_is_excluded)]
    pub fn is_excluded(&self) -> (r: bool)
        ensures
            r == self.spec_is_excluded(),
    {
        matches!(self, ConversionOutcome::Error(..) | ConversionOutcome::Inefficient(..))
    }

    /// The input size that the outcome reports, where it reports one.
    pub open spec fn input_size(&self) -> Option<u64> {
        match self {
            ConversionOutcome::Success(i, _) => Some(*i),
            ConversionOutcome::Warning(i, _, _) => Some(*i),
            ConversionOutcome::Inefficient(i, _) => Some(*i),
            _ => None,
        }
    }
}

/// What the converter keeps of a file's metadata. Times are in nanoseconds
/// since the Unix epoch, and absent where the file system does not record
/// them.
#[derive(Debug, Clone, Copy, PartialEq, Eq, Structural)]
pub struct Metadata {
    pub len: u64,
    pub created: Option<u64>,
    pub modified: Option<u64>,
    pub accessed: Option<u64>,
}

impl Metadata {
    /// All three times are known, so that they can be copied to another file.
    pub open spec fn spec_has_times(&self) -> bool {
        self.created is Some && self.modified is Some && self.accessed is Some
    }

    /// Whether all three times are known.
    #[verifier::when_used_as_spec(spec_has_times)]
    pub fn has_times(&self) -> (r: bool)
        ensures
            r == self.spec_has_times(),
    {
        self.created.is_some() && self.modified.is_some() && self.accessed.is_some()
    }
}

/// One file of the work list.
#[derive(Debug)]
pub struct FileEntry {
    /// The outcome, once the file has been dealt with.
    pub state: Option<ConversionOutcome>,
    /// When the outcome was recorded, in milliseconds since the run began.
    pub last_active: u64,
    pub path: String,
    pub ext: FileType,
    pub metadata: Metadata,
}

impl FileEntry {
    /// A file that has not been dealt with yet.
    pub fn new(path: String, ext: FileType, metadata: Metadata) -> (r: Self)
        ensures
            r.state is None,
            r.last_active == 0,
            r.path == path,
            r.ext == ext,
            r.metadata == metadata,
    {
        Self { state: None, last_active: 0, path, ext, metadata }
    }

    /// The extension that the output file gets: `jxl`, after the source's
    /// own type unless that is switched off.
    pub open spec fn output_extension(&self, no_preserve_extension: bool) -> Seq<char> {
        if no_preserve_extension {
            "jxl"@
        } else {
            self.ext.spec_name() + ".jxl"@
        }
    }

    /// The path of the output file.
    pub open spec fn spec_output_path(&self, no_preserve_extension: bool) -> Seq<char> {
        path_with_extension(self.path@, self.output_extension(no_preserve_extension))
    }

    /// The path that the converted file is written to: the source path with
    /// its extension replaced by [`FileEntry::output_extension`].
    pub fn output_path(&self, no_preserve_extension: bool) -> (r: String)
        ensures
            r@ == self.spec_output_path(no_preserve_extension),
    {
        proof {
            reveal_strlit("jxl");
            reveal_strlit(".jxl");
            self.ext.lemma_name_is_lower_case();
        }
        if no_preserve_extension {
            with_extension(self.path.as_str(), "jxl")
        } else {
            let extension = concat(self.ext.name(), ".jxl");
            with_extension(self.path.as_str(), extension.as_str())
        }
    }

    /// Records the outcome at time `now`, unless the entry has an outcome
    /// already: an entry takes one outcome and keeps it, so a second write
    /// changes nothing. Returns the time under which the entry's outcome
    /// stands recorded.
    pub fn set_state(&mut self, now: u64, outcome: ConversionOutcome) -> (last_active: u64)
        ensures
            old(self).state is None ==> final(self).state == Some(outcome)
                && final(self).last_active == now,
            old(self).state is Some ==> final(self).state == old(self).state
                && final(self).last_active == old(self).last_active,
            last_active == final(self).last_active,
            final(self).path == old(self).path,
            final(self).ext == old(self).ext,
            final(self).metadata == old(self).metadata,
    {
        if self.state.is_some() {
            return self.last_active;
        }
        self.last_active = now;
        self.state = Some(outcome);
        now
    }
}

} // verus!
