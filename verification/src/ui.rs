//! What the display keeps between two frames: the selected tab and the
//! scroll position.

use ratatui::style::Color;
use vstd::prelude::*;
use crate::outcome::ConversionOutcome;

verus! {

/// The colors of the terminal, as `ratatui` defines them. The variants are
/// read from the definition in that crate; nothing is claimed of them here.
#[verifier::external_type_specification]
pub struct ExColor(Color);

/// The tabs of the file list.
#[derive(Debug, Clone, Copy, PartialEq, Eq, Structural)]
pub enum FileTab {
    Files,
    Converted,
    Errors,
    Warnings,
    Inefficient,
    Breakdown,
}

impl FileTab {
    /// All tabs, in the order in which they are shown.
    pub open spec fn spec_all() -> Seq<FileTab> {
        seq![
            FileTab::Files,
            FileTab::Converted,
            FileTab::Errors,
            FileTab::Warnings,
            FileTab::Inefficient,
            FileTab::Breakdown,
        ]
    }

    /// All tabs, in the order in which they are shown.
    pub fn all() -> (r: [FileTab; 6])
        ensures
            r@ == Self::spec_all(),
    {
        let r = [
            FileTab::Files,
            FileTab::Converted,
            FileTab::Errors,
            FileTab::Warnings,
            FileTab::Inefficient,
            FileTab::Breakdown,
        ];
        r
    }

    /// The position of the tab among all tabs.
    pub open spec fn spec_idx(self) -> usize {
        match self {
            FileTab::Files => 0,
            FileTab::Converted => 1,
            FileTab::Errors => 2,
            FileTab::Warnings => 3,
            FileTab::Inefficient => 4,
            FileTab::Breakdown => 5,
        }
    }

    /// The position of the tab among all tabs.
    #[verifier::when_used_as_spec(spec_idx)]
    pub fn idx(self) -> (r: usize)
        ensures
            r == self.spec_idx(),
            r < 6,
            Self::spec_all()[r as int] == self,
    {
        match self {
            FileTab::Files => 0,
            FileTab::Converted => 1,
            FileTab::Errors => 2,
            FileTab::Warnings => 3,
            FileTab::Inefficient => 4,
            FileTab::Breakdown => 5,
        }
    }

    /// The tab to the right, the first tab after the last.
    pub fn next(self) -> (r: Self)
        ensures
            r == Self::spec_all()[(self.spec_idx() + 1) % 6],
    {
        Self::all()[(self.idx() + 1) % 6]
    }

    /// The tab to the left, the last tab before the first.
    pub fn prev(self) -> (r: Self)
        ensures
            r == Self::spec_all()[(self.spec_idx() + 5) % 6],
    {
        let current = self.idx();
        if current == 0 {
            Self::all()[5]
        } else {
            Self::all()[current - 1]
        }
    }

    /// The color that marks the tab.
    pub open spec fn spec_accent_color(self) -> Color {
        match self {
            FileTab::Files => Color::White,
            FileTab::Converted => Color::Green,
            FileTab::Errors => Color::Red,
            FileTab::Warnings => Color::LightRed,
            FileTab::Inefficient => Color::Yellow,
            FileTab::Breakdown => Color::Blue,
        }
    }

    /// The color that marks the tab.
    #[verifier::when_used_as_spec(spec_accent_color)]
    pub fn accent_color(self) -> (r: Color)
        ensures
            r == self.spec_accent_color(),
    {
        match self {
            FileTab::Files => Color::White,
            FileTab::Converted => Color::Green,
            FileTab::Errors => Color::Red,
            FileTab::Warnings => Color::LightRed,
            FileTab::Inefficient => Color::Yellow,
            FileTab::Breakdown => Color::Blue,
        }
    }

    /// The color of text written on the tab's accent color.
    pub open spec fn spec_text_color(self) -> Color {
        match self {
            FileTab::Files => Color::Black,
            FileTab::Converted => Color::Black,
            FileTab::Errors => Color::White,
            FileTab::Warnings => Color::White,
            FileTab::Inefficient => Color::Black,
            FileTab::Breakdown => Color::White,
        }
    }

    /// The color of text written on the tab's accent color.
    #[verifier::when_used_as_spec(spec_text_color)]
    pub fn text_color(self) -> (r: Color)
        ensures
            r == self.spec_text_color(),
    {
        match self {
            FileTab::Files => Color::Black,
            FileTab::Converted => Color::Black,
            FileTab::Errors => Color::White,
            FileTab::Warnings => Color::White,
            FileTab::Inefficient => Color::Black,
            FileTab::Breakdown => Color::White,
        }
    }

    /// A file in the given state is listed under the tab: the files still
    /// to do under the first, those converted or skipped under the second,
    /// then those that failed, those with a warning, and those found
    /// inefficient. The last tab lists no files.
    pub open spec fn spec_lists(self, state: Option<ConversionOutcome>) -> bool {
        match (self, state) {
            (FileTab::Files, None) => true,
            (FileTab::Converted, Some(ConversionOutcome::Success(..))) => true,
            (FileTab::Converted, Some(ConversionOutcome::Warning(..))) => true,
            (FileTab::Converted, Some(ConversionOutcome::Skipped)) => true,
            (FileTab::Warnings, Some(ConversionOutcome::Warning(..))) => true,
            (FileTab::Errors, Some(ConversionOutcome::Error(..))) => true,
            (FileTab::Inefficient, Some(ConversionOutcome::Inefficient(..))) => true,
            _ => false,
        }
    }

    /// Whether a file in the given state is listed under the tab.
    pub fn lists(self, state: &Option<ConversionOutcome>) -> (r: bool)
        ensures
            r == self.spec_lists(*state),
    {
        match (self, state) {
            (FileTab::Files, None) => true,
            (FileTab::Converted, Some(ConversionOutcome::Success(..))) => true,
            (FileTab::Converted, Some(ConversionOutcome::Warning(..))) => true,
            (FileTab::Converted, Some(ConversionOutcome::Skipped)) => true,
            (FileTab::Warnings, Some(ConversionOutcome::Warning(..))) => true,
            (FileTab::Errors, Some(ConversionOutcome::Error(..))) => true,
            (FileTab::Inefficient, Some(ConversionOutcome::Inefficient(..))) => true,
            _ => false,
        }
    }

    /// The title of the tab.
    pub open spec fn spec_name(self) -> Seq<char> {
        match self {
            FileTab::Files => "Files"@,
            FileTab::Converted => "Converted"@,
            FileTab::Errors => "Errors"@,
            FileTab::Warnings => "Warnings"@,
            FileTab::Inefficient => "Inefficient"@,
            FileTab::Breakdown => "Breakdown"@,
        }
    }

    /// The title of the tab.
    pub fn name(self) -> (r: &'static str)
        ensures
            r@ == self.spec_name(),
    {
        match self {
            FileTab::Files => "Files",
            FileTab::Converted => "Converted",
            FileTab::Errors => "Errors",
            FileTab::Warnings => "Warnings",
            FileTab::Inefficient => "Inefficient",
            FileTab::Breakdown => "Breakdown",
        }
    }
}

/// Every file with an outcome is listed under some tab. The second tab
/// lists the settled files, the next three list files that need attention:
/// together with the skipped files, which the second tab lists, these are
/// all that need attention.
pub proof fn lemma_tabs_cover_outcomes(o: ConversionOutcome)
    ensures
        FileTab::Converted.spec_lists(Some(o)) <==> o.is_settled(),
        FileTab::Errors.spec_lists(Some(o)) || FileTab::Warnings.spec_lists(Some(o))
            || FileTab::Inefficient.spec_lists(Some(o)) || o is Skipped <==> o.needs_attention(),
        o.is_settled() || o.needs_attention(),
        !FileTab::Files.spec_lists(Some(o)),
{
}

/// Going right and then left, or left and then right, ends on the same tab,
/// and six steps in one direction go once around.
pub proof fn lemma_tabs_cycle(tab: FileTab)
    ensures
        FileTab::spec_all()[(FileTab::spec_all()[(tab.spec_idx() + 1) % 6].spec_idx() + 5) % 6]
            == tab,
        FileTab::spec_all()[(FileTab::spec_all()[(tab.spec_idx() + 5) % 6].spec_idx() + 1) % 6]
            == tab,
{
}

/// What the display keeps while the files are being found.
#[derive(Debug, Clone, Copy, PartialEq, Eq, Structural)]
pub struct ScanningUIState {
    pub list_offset: usize,
    /// Current time (at render) in milliseconds since program start.
    pub time: u64,
    /// When the scan began, in milliseconds since program start.
    pub start: u64,
}

/// What the display keeps while the files are being converted.
#[derive(Debug)]
pub struct ConvertingUIState {
    /// Using PageUp/PageDown to scroll the file list will set this offset.
    pub list_offset: usize,
    /// Last frame's processing indexes for each thread, used to check old files for errors.
    pub last_processing: Vec<usize>,
    /// Current time (at render) in milliseconds since program start.
    pub time: u64,
    pub file_tab: FileTab,
    pub details: bool,
}

/// Where the list stands after scrolling by `offset` lines from `from` in a
/// list of `num_files` files: never before the first line, and, scrolling
/// down, never beyond the last file.
pub open spec fn scrolled(from: usize, offset: i32, num_files: usize) -> int {
    if offset < 0 {
        if from + offset < 0 {
            0
        } else {
            from + offset
        }
    } else {
        let last = if num_files == 0 {
            0
        } else {
            num_files - 1
        };
        if from + offset > last {
            last
        } else {
            from + offset
        }
    }
}

impl ConvertingUIState {
    /// Scrolls the list by `offset` lines, up where it is negative, in a
    /// list of `num_files` files.
    pub fn add_offset(&mut self, offset: i32, num_files: usize)
        ensures
            final(self).list_offset == scrolled(old(self).list_offset, offset, num_files),
            final(self).last_processing == old(self).last_processing,
            final(self).time == old(self).time,
            final(self).file_tab == old(self).file_tab,
            final(self).details == old(self).details,
    {
        if offset < 0 {
            let up: u64 = (-(offset as i64)) as u64;
            if up >= self.list_offset as u64 {
                self.list_offset = 0;
            } else {
                self.list_offset = self.list_offset - (up as usize);
            }
        } else {
            let last: usize = if num_files == 0 {
                0
            } else {
                num_files - 1
            };
            let down: usize = offset as usize;
            if self.list_offset >= last || down >= last - self.list_offset {
                self.list_offset = last;
            } else {
                self.list_offset = self.list_offset + down;
            }
        }
    }
}

} // verus!
