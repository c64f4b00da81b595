//! The sort methods and time fields of the extended command line.

use vstd::prelude::*;
use crate::text::eq_ignore_case;

verus! {

/// How the work list is ordered, with the direction as part of the method.
#[derive(Debug, Clone, Copy, PartialEq, Eq, Structural)]
pub enum SortMethod {
    /// Keep the order in which the files were found
    Unsorted,
    /// Ascending by file size
    Asc,
    /// Descending by file size
    Desc,
    Rand,
    Name,
    /// Modification time
    MTime,
    /// Creation time
    CTime,
    /// Accessed time
    ATime,
}

/// One of the three times of a file.
#[allow(clippy::enum_variant_names)]
#[derive(Debug, Clone, Copy, PartialEq, Eq, Structural)]
pub enum RecentField {
    /// Modification time
    MTime,
    /// Creation time
    CTime,
    /// Accessed time
    ATime,
}

/// The error of [`SortMethod::from_str`].
#[derive(Debug, Clone, Copy, PartialEq, Eq, Structural)]
pub struct InvalidSortMethod;

/// The error of [`RecentField::from_str`].
#[derive(Debug, Clone, Copy, PartialEq, Eq, Structural)]
pub struct InvalidRecentField;

impl InvalidSortMethod {
    /// The text shown for this error.
    pub fn to_string(&self) -> (r: String)
        ensures
            r@ == "invalid sort method"@,
    {
        "invalid sort method".to_owned()
    }
}

impl InvalidRecentField {
    /// The text shown for this error.
    pub fn to_string(&self) -> (r: String)
        ensures
            r@ == "invalid recent field"@,
    {
        "invalid recent field".to_owned()
    }
}

impl Default for SortMethod {
    fn default() -> (r: Self)
        ensures
            r == SortMethod::Unsorted,
    {
        SortMethod::Unsorted
    }
}

impl Default for RecentField {
    fn default() -> (r: Self)
        ensures
            r == RecentField::MTime,
    {
        RecentField::MTime
    }
}

/// The sort method that a name stands for, compared without regard to ASCII
/// case.
pub open spec fn sort_method_of(s: Seq<char>) -> Option<SortMethod> {
    if eq_ignore_case(s, "none"@) {
        Some(SortMethod::Unsorted)
    } else if eq_ignore_case(s, "asc"@) {
        Some(SortMethod::Asc)
    } else if eq_ignore_case(s, "desc"@) {
        Some(SortMethod::Desc)
    } else if eq_ignore_case(s, "rand"@) {
        Some(SortMethod::Rand)
    } else if eq_ignore_case(s, "name"@) {
        Some(SortMethod::Name)
    } else if eq_ignore_case(s, "mtime"@) {
        Some(SortMethod::MTime)
    } else if eq_ignore_case(s, "ctime"@) {
        Some(SortMethod::CTime)
    } else if eq_ignore_case(s, "atime"@) {
        Some(SortMethod::ATime)
    } else {
        None
    }
}

/// The time field that a name stands for, compared without regard to ASCII
/// case.
pub open spec fn recent_field_of(s: Seq<char>) -> Option<RecentField> {
    if eq_ignore_case(s, "mtime"@) {
        Some(RecentField::MTime)
    } else if eq_ignore_case(s, "ctime"@) {
        Some(RecentField::CTime)
    } else if eq_ignore_case(s, "atime"@) {
        Some(RecentField::ATime)
    } else {
        None
    }
}

impl SortMethod {
    /// Parses a sort method without regard to ASCII case.
    pub fn from_str(s: &str) -> (r: Result<SortMethod, InvalidSortMethod>)
        ensures
            match sort_method_of(s@) {
                Some(m) => r == Ok::<SortMethod, InvalidSortMethod>(m),
                None => r is Err,
            },
    {
        if s.eq_ignore_ascii_case("none") {
            Ok(SortMethod::Unsorted)
        } else if s.eq_ignore_ascii_case("asc") {
            Ok(SortMethod::Asc)
        } else if s.eq_ignore_ascii_case("desc") {
            Ok(SortMethod::Desc)
        } else if s.eq_ignore_ascii_case("rand") {
            Ok(SortMethod::Rand)
        } else if s.eq_ignore_ascii_case("name") {
            Ok(SortMethod::Name)
        } else if s.eq_ignore_ascii_case("mtime") {
            Ok(SortMethod::MTime)
        } else if s.eq_ignore_ascii_case("ctime") {
            Ok(SortMethod::CTime)
        } else if s.eq_ignore_ascii_case("atime") {
            Ok(SortMethod::ATime)
        } else {
            Err(InvalidSortMethod)
        }
    }
}

impl RecentField {
    /// Parses the name of a time field without regard to ASCII case.
    pub fn from_str(s: &str) -> (r: Result<RecentField, InvalidRecentField>)
        ensures
            match recent_field_of(s@) {
                Some(f) => r == Ok::<RecentField, InvalidRecentField>(f),
                None => r is Err,
            },
    {
        if s.eq_ignore_ascii_case("mtime") {
            Ok(RecentField::MTime)
        } else if s.eq_ignore_ascii_case("ctime") {
            Ok(RecentField::CTime)
        } else if s.eq_ignore_ascii_case("atime") {
            Ok(RecentField::ATime)
        } else {
            Err(InvalidRecentField)
        }
    }
}

} // verus!
