//! Configuration values: the supported file types, the per-type table and the
//! options that steer a run.

use vstd::prelude::*;
use vstd::string::StrSliceExecFns;
use crate::text::{eq_ignore_case, trimmed};

verus! {

/// An image format that the converter recognises.
#[allow(clippy::upper_case_acronyms)]
#[derive(Debug, Clone, Copy, PartialEq, Eq, Hash, Structural)]
pub enum FileType {
    JXL,
    PPM,
    PNM,
    PFM,
    PAM,
    PGX,
    PNG,
    APNG,
    GIF,
    JPEG,
    TIFF,
    TGA,
    QOI,
    BMP,
}

/// The error of [`FileType::from_str`] and [`FileTypes::from_str`].
#[derive(Debug, Clone, Copy, PartialEq, Eq, Structural)]
pub struct InvalidFileType;

impl InvalidFileType {
    /// The text shown for this error.
    pub fn to_string(&self) -> (r: String)
        ensures
            r@ == "invalid file type"@,
    {
        "invalid file type".to_owned()
    }
}

/// The file type that a name stands for, compared without regard to ASCII
/// case; `jpg` and `tif` are accepted beside `jpeg` and `tiff`. `bmp` is not
/// among the names.
pub open spec fn file_type_of(s: Seq<char>) -> Option<FileType> {
    if eq_ignore_case(s, "jxl"@) {
        Some(FileType::JXL)
    } else if eq_ignore_case(s, "ppm"@) {
        Some(FileType::PPM)
    } else if eq_ignore_case(s, "pnm"@) {
        Some(FileType::PNM)
    } else if eq_ignore_case(s, "pfm"@) {
        Some(FileType::PFM)
    } else if eq_ignore_case(s, "pam"@) {
        Some(FileType::PAM)
    } else if eq_ignore_case(s, "pgx"@) {
        Some(FileType::PGX)
    } else if eq_ignore_case(s, "png"@) {
        Some(FileType::PNG)
    } else if eq_ignore_case(s, "apng"@) {
        Some(FileType::APNG)
    } else if eq_ignore_case(s, "gif"@) {
        Some(FileType::GIF)
    } else if eq_ignore_case(s, "jpeg"@) || eq_ignore_case(s, "jpg"@) {
        Some(FileType::JPEG)
    } else if eq_ignore_case(s, "tiff"@) || eq_ignore_case(s, "tif"@) {
        Some(FileType::TIFF)
    } else if eq_ignore_case(s, "tga"@) {
        Some(FileType::TGA)
    } else if eq_ignore_case(s, "qoi"@) {
        Some(FileType::QOI)
    } else {
        None
    }
}

impl FileType {
    /// Every file type, in declaration order.
    pub open spec fn spec_all() -> Seq<FileType> {
        seq![
            FileType::JXL,
            FileType::PPM,
            FileType::PNM,
            FileType::PFM,
            FileType::PAM,
            FileType::PGX,
            FileType::PNG,
            FileType::APNG,
            FileType::GIF,
            FileType::JPEG,
            FileType::TIFF,
            FileType::TGA,
            FileType::QOI,
            FileType::BMP,
        ]
    }

    /// The position of the type among all types.
    pub open spec fn position(self) -> int {
        match self {
            FileType::JXL => 0,
            FileType::PPM => 1,
            FileType::PNM => 2,
            FileType::PFM => 3,
            FileType::PAM => 4,
            FileType::PGX => 5,
            FileType::PNG => 6,
            FileType::APNG => 7,
            FileType::GIF => 8,
            FileType::JPEG => 9,
            FileType::TIFF => 10,
            FileType::TGA => 11,
            FileType::QOI => 12,
            FileType::BMP => 13,
        }
    }

    /// Every type stands once in the list of all types, at its position.
    pub proof fn lemma_all_types()
        ensures
            Self::spec_all().len() == 14,
            forall|c: FileType|
                0 <= #[trigger] c.position() < 14 && Self::spec_all()[c.position()] == c,
            forall|j: int| 0 <= j < 14 ==> (#[trigger] Self::spec_all()[j]).position() == j,
    {
    }

    /// Every file type, in declaration order.
    pub fn all() -> (r: [FileType; 14])
        ensures
            r@ == Self::spec_all(),
    {
        let r = [
            FileType::JXL,
            FileType::PPM,
            FileType::PNM,
            FileType::PFM,
            FileType::PAM,
            FileType::PGX,
            FileType::PNG,
            FileType::APNG,
            FileType::GIF,
            FileType::JPEG,
            FileType::TIFF,
            FileType::TGA,
            FileType::QOI,
            FileType::BMP,
        ];
        r
    }

    /// The lower-case name of the type, as it appears in file extensions.
    pub open spec fn spec_name(self) -> Seq<char> {
        match self {
            FileType::JXL => "jxl"@,
            FileType::PPM => "ppm"@,
            FileType::PNM => "pnm"@,
            FileType::PFM => "pfm"@,
            FileType::PAM => "pam"@,
            FileType::PGX => "pgx"@,
            FileType::PNG => "png"@,
            FileType::APNG => "apng"@,
            FileType::GIF => "gif"@,
            FileType::JPEG => "jpeg"@,
            FileType::TIFF => "tiff"@,
            FileType::TGA => "tga"@,
            FileType::QOI => "qoi"@,
            FileType::BMP => "bmp"@,
        }
    }

    /// The name of a type is made of lower-case letters only.
    pub proof fn lemma_name_is_lower_case(self)
        ensures
            forall|i: int|
                0 <= i < self.spec_name().len() ==> 'a' <= #[trigger] self.spec_name()[i] <= 'z',
    {
        reveal_strlit("jxl");
        reveal_strlit("ppm");
        reveal_strlit("pnm");
        reveal_strlit("pfm");
        reveal_strlit("pam");
        reveal_strlit("pgx");
        reveal_strlit("png");
        reveal_strlit("apng");
        reveal_strlit("gif");
        reveal_strlit("jpeg");
        reveal_strlit("tiff");
        reveal_strlit("tga");
        reveal_strlit("qoi");
        reveal_strlit("bmp");
    }

    /// The lower-case name of the type.
    pub fn name(self) -> (r: &'static str)
        ensures
            r@ == self.spec_name(),
    {
        match self {
            FileType::JXL => "jxl",
            FileType::PPM => "ppm",
            FileType::PNM => "pnm",
            FileType::PFM => "pfm",
            FileType::PAM => "pam",
            FileType::PGX => "pgx",
            FileType::PNG => "png",
            FileType::APNG => "apng",
            FileType::GIF => "gif",
            FileType::JPEG => "jpeg",
            FileType::TIFF => "tiff",
            FileType::TGA => "tga",
            FileType::QOI => "qoi",
            FileType::BMP => "bmp",
        }
    }

    /// The lower-case name of the type, as an owned string.
    pub fn to_string(&self) -> (r: String)
        ensures
            r@ == self.spec_name(),
    {
        self.name().to_owned()
    }

    /// Parses a type name without regard to ASCII case.
    pub fn from_str(s: &str) -> (r: Result<FileType, InvalidFileType>)
        ensures
            match file_type_of(s@) {
                Some(t) => r == Ok::<FileType, InvalidFileType>(t),
                None => r is Err,
            },
    {
        if s.eq_ignore_ascii_case("jxl") {
            Ok(FileType::JXL)
        } else if s.eq_ignore_ascii_case("ppm") {
            Ok(FileType::PPM)
        } else if s.eq_ignore_ascii_case("pnm") {
            Ok(FileType::PNM)
        } else if s.eq_ignore_ascii_case("pfm") {
            Ok(FileType::PFM)
        } else if s.eq_ignore_ascii_case("pam") {
            Ok(FileType::PAM)
        } else if s.eq_ignore_ascii_case("pgx") {
            Ok(FileType::PGX)
        } else if s.eq_ignore_ascii_case("png") {
            Ok(FileType::PNG)
        } else if s.eq_ignore_ascii_case("apng") {
            Ok(FileType::APNG)
        } else if s.eq_ignore_ascii_case("gif") {
            Ok(FileType::GIF)
        } else if s.eq_ignore_ascii_case("jpeg") || s.eq_ignore_ascii_case("jpg") {
            Ok(FileType::JPEG)
        } else if s.eq_ignore_ascii_case("tiff") || s.eq_ignore_ascii_case("tif") {
            Ok(FileType::TIFF)
        } else if s.eq_ignore_ascii_case("tga") {
            Ok(FileType::TGA)
        } else if s.eq_ignore_ascii_case("qoi") {
            Ok(FileType::QOI)
        } else {
            Err(InvalidFileType)
        }
    }

    /// Whether the encoder cannot read this format itself, so that the file
    /// has to be rewritten as PNG first.
    pub open spec fn spec_needs_conversion(self) -> bool {
        self == FileType::TIFF || self == FileType::TGA || self == FileType::QOI || self
            == FileType::BMP
    }

    /// Returns true for the formats that must be rewritten before encoding.
    #[verifier::when_used_as_spec(spec_needs_conversion)]
    pub fn needs_conversion(self) -> (r: bool)
        ensures
            r == self.spec_needs_conversion(),
    {
        matches!(self, FileType::TIFF | FileType::TGA | FileType::QOI | FileType::BMP)
    }
}

/// How the work list is ordered before conversion starts.
#[derive(Debug, Clone, Copy, PartialEq, Eq, Structural)]
pub enum SortMethod {
    /// Keep the order in which the files were found
    Unsorted,
    Size,
    Name,
    /// Modification time
    MTime,
    /// Creation time
    CTime,
    /// Accessed time
    ATime,
}

/// The direction of the ordering.
#[derive(Debug, Clone, Copy, PartialEq, Eq, Structural)]
pub enum SortOrder {
    Asc,
    Desc,
}

/// The error of [`SortMethod::from_str`].
#[derive(Debug, Clone, Copy, PartialEq, Eq, Structural)]
pub struct InvalidSortMethod;

/// The error of [`SortOrder::from_str`].
#[derive(Debug, Clone, Copy, PartialEq, Eq, Structural)]
pub struct InvalidSortDirection;

impl InvalidSortMethod {
    /// The text shown for this error.
    pub fn to_string(&self) -> (r: String)
        ensures
            r@ == "invalid sort method"@,
    {
        "invalid sort method".to_owned()
    }
}

impl InvalidSortDirection {
    /// The text shown for this error.
    pub fn to_string(&self) -> (r: String)
        ensures
            r@ == "invalid sort direction"@,
    {
        "invalid sort direction".to_owned()
    }
}

/// The sort method that a name stands for, compared without regard to ASCII
/// case.
pub open spec fn sort_method_of(s: Seq<char>) -> Option<SortMethod> {
    if eq_ignore_case(s, "none"@) {
        Some(SortMethod::Unsorted)
    } else if eq_ignore_case(s, "size"@) {
        Some(SortMethod::Size)
    } else if eq_ignore_case(s, "name"@) {
        Some(SortMethod::Name)
    } else if eq_ignore_case(s, "mtime"@) {
        Some(SortMethod::MTime)
    } else if eq_ignore_case(s, "ctime"@) {
        Some(SortMethod::CTime)
    } else if eq_ignore_case(s, "atime"@) {
        Some(SortMethod::ATime)
    } else {
        None
    }
}

/// The sort direction that a name stands for, compared without regard to
/// ASCII case.
pub open spec fn sort_order_of(s: Seq<char>) -> Option<SortOrder> {
    if eq_ignore_case(s, "asc"@) || eq_ignore_case(s, "ascending"@) || eq_ignore_case(s, "up"@)
        || eq_ignore_case(s, "increasing"@) {
        Some(SortOrder::Asc)
    } else if eq_ignore_case(s, "desc"@) || eq_ignore_case(s, "descending"@) || eq_ignore_case(
        s,
        "down"@,
    ) || eq_ignore_case(s, "decreasing"@) {
        Some(SortOrder::Desc)
    } else {
        None
    }
}

impl Default for SortMethod {
    fn default() -> (r: Self)
        ensures
            r == SortMethod::Unsorted,
    {
        SortMethod::Unsorted
    }
}

impl Default for SortOrder {
    fn default() -> (r: Self)
        ensures
            r == SortOrder::Asc,
    {
        SortOrder::Asc
    }
}

impl SortMethod {
    /// Parses a sort method without regard to ASCII case.
    pub fn from_str(s: &str) -> (r: Result<SortMethod, InvalidSortMethod>)
        ensures
            match sort_method_of(s@) {
                Some(m) => r == Ok::<SortMethod, InvalidSortMethod>(m),
                None => r is Err,
            },
    {
        if s.eq_ignore_ascii_case("none") {
            Ok(SortMethod::Unsorted)
        } else if s.eq_ignore_ascii_case("size") {
            Ok(SortMethod::Size)
        } else if s.eq_ignore_ascii_case("name") {
            Ok(SortMethod::Name)
        } else if s.eq_ignore_ascii_case("mtime") {
            Ok(SortMethod::MTime)
        } else if s.eq_ignore_ascii_case("ctime") {
            Ok(SortMethod::CTime)
        } else if s.eq_ignore_ascii_case("atime") {
            Ok(SortMethod::ATime)
        } else {
            Err(InvalidSortMethod)
        }
    }
}

impl SortOrder {
    /// Parses a sort direction without regard to ASCII case.
    pub fn from_str(s: &str) -> (r: Result<SortOrder, InvalidSortDirection>)
        ensures
            match sort_order_of(s@) {
                Some(o) => r == Ok::<SortOrder, InvalidSortDirection>(o),
                None => r is Err,
            },
    {
        if s.eq_ignore_ascii_case("asc") || s.eq_ignore_ascii_case("ascending")
            || s.eq_ignore_ascii_case("up") || s.eq_ignore_ascii_case("increasing") {
            Ok(SortOrder::Asc)
        } else if s.eq_ignore_ascii_case("desc") || s.eq_ignore_ascii_case("descending")
            || s.eq_ignore_ascii_case("down") || s.eq_ignore_ascii_case("decreasing") {
            Ok(SortOrder::Desc)
        } else {
            Err(InvalidSortDirection)
        }
    }
}

/// One value of `T` for each file type.
#[allow(non_snake_case)]
#[derive(Debug, Default, Clone, PartialEq, Eq)]
pub struct PerFileType<T> {
    pub JXL: T,
    pub PPM: T,
    pub PNM: T,
    pub PFM: T,
    pub PAM: T,
    pub PGX: T,
    pub PNG: T,
    pub APNG: T,
    pub GIF: T,
    pub JPEG: T,
    pub TIFF: T,
    pub TGA: T,
    pub QOI: T,
    pub BMP: T,
}

impl<T> PerFileType<T> {
    /// The value kept for `ftype`.
    pub open spec fn spec_get(self, ftype: FileType) -> T {
        match ftype {
            FileType::JXL => self.JXL,
            FileType::PPM => self.PPM,
            FileType::PNM => self.PNM,
            FileType::PFM => self.PFM,
            FileType::PAM => self.PAM,
            FileType::PGX => self.PGX,
            FileType::PNG => self.PNG,
            FileType::APNG => self.APNG,
            FileType::GIF => self.GIF,
            FileType::JPEG => self.JPEG,
            FileType::TIFF => self.TIFF,
            FileType::TGA => self.TGA,
            FileType::QOI => self.QOI,
            FileType::BMP => self.BMP,
        }
    }

    /// The table with the value for `ftype` replaced by `v`.
    pub open spec fn spec_set(self, ftype: FileType, v: T) -> Self {
        match ftype {
            FileType::JXL => PerFileType { JXL: v, ..self },
            FileType::PPM => PerFileType { PPM: v, ..self },
            FileType::PNM => PerFileType { PNM: v, ..self },
            FileType::PFM => PerFileType { PFM: v, ..self },
            FileType::PAM => PerFileType { PAM: v, ..self },
            FileType::PGX => PerFileType { PGX: v, ..self },
            FileType::PNG => PerFileType { PNG: v, ..self },
            FileType::APNG => PerFileType { APNG: v, ..self },
            FileType::GIF => PerFileType { GIF: v, ..self },
            FileType::JPEG => PerFileType { JPEG: v, ..self },
            FileType::TIFF => PerFileType { TIFF: v, ..self },
            FileType::TGA => PerFileType { TGA: v, ..self },
            FileType::QOI => PerFileType { QOI: v, ..self },
            FileType::BMP => PerFileType { BMP: v, ..self },
        }
    }

    /// Replacing the value for one type changes what is kept for that type
    /// and for no other.
    pub proof fn lemma_get_set(self, changed: FileType, v: T, ftype: FileType)
        ensures
            self.spec_set(changed, v).spec_get(ftype) == if ftype == changed {
                v
            } else {
                self.spec_get(ftype)
            },
    {
    }

    /// A shared reference to the value kept for `ftype`.
    #[inline]
    pub fn get(&self, ftype: FileType) -> (r: &T)
        ensures
            *r == self.spec_get(ftype),
    {
        match ftype {
            FileType::JXL => &self.JXL,
            FileType::PPM => &self.PPM,
            FileType::PNM => &self.PNM,
            FileType::PFM => &self.PFM,
            FileType::PAM => &self.PAM,
            FileType::PGX => &self.PGX,
            FileType::PNG => &self.PNG,
            FileType::APNG => &self.APNG,
            FileType::GIF => &self.GIF,
            FileType::JPEG => &self.JPEG,
            FileType::TIFF => &self.TIFF,
            FileType::TGA => &self.TGA,
            FileType::QOI => &self.QOI,
            FileType::BMP => &self.BMP,
        }
    }

    /// A mutable reference to the value kept for `ftype`; the other values
    /// stay as they are.
    #[inline]
    pub fn get_mut(&mut self, ftype: FileType) -> (r: &mut T)
        ensures
            *r == old(self).spec_get(ftype),
            *final(self) == old(self).spec_set(ftype, *final(r)),
    {
        match ftype {
            FileType::JXL => &mut self.JXL,
            FileType::PPM => &mut self.PPM,
            FileType::PNM => &mut self.PNM,
            FileType::PFM => &mut self.PFM,
            FileType::PAM => &mut self.PAM,
            FileType::PGX => &mut self.PGX,
            FileType::PNG => &mut self.PNG,
            FileType::APNG => &mut self.APNG,
            FileType::GIF => &mut self.GIF,
            FileType::JPEG => &mut self.JPEG,
            FileType::TIFF => &mut self.TIFF,
            FileType::TGA => &mut self.TGA,
            FileType::QOI => &mut self.QOI,
            FileType::BMP => &mut self.BMP,
        }
    }
}

/// The set of file types that a run converts.
#[derive(Debug, Clone, PartialEq, Eq)]
pub struct FileTypes(pub PerFileType<bool>);

impl View for FileTypes {
    type V = Set<FileType>;

    open spec fn view(&self) -> Set<FileType> {
        Set::new(|t: FileType| self.0.spec_get(t))
    }
}

impl Default for FileTypes {
    /// Only PNG files are converted unless the user says otherwise.
    fn default() -> (r: Self)
        ensures
            r@ == Set::<FileType>::empty().insert(FileType::PNG),
    {
        let mut r = FileTypes::empty();
        r.insert(FileType::PNG);
        r
    }
}

impl FileTypes {
    /// The set without any type.
    pub fn empty() -> (r: Self)
        ensures
            r@ == Set::<FileType>::empty(),
    {
        let r = FileTypes(
            PerFileType {
                JXL: false,
                PPM: false,
                PNM: false,
                PFM: false,
                PAM: false,
                PGX: false,
                PNG: false,
                APNG: false,
                GIF: false,
                JPEG: false,
                TIFF: false,
                TGA: false,
                QOI: false,
                BMP: false,
            },
        );
        r
    }

    /// Whether `ftype` is in the set.
    pub fn contains(&self, ftype: FileType) -> (r: bool)
        ensures
            r == self@.contains(ftype),
    {
        *self.0.get(ftype)
    }

    /// Adds `ftype`; returns true if it was not in the set before.
    pub fn insert(&mut self, ftype: FileType) -> (r: bool)
        ensures
            final(self)@ == old(self)@.insert(ftype),
            r == !old(self)@.contains(ftype),
    {
        let slot = self.0.get_mut(ftype);
        let was = *slot;
        *slot = true;
        proof {
            assert forall|t: FileType| self@.contains(t) == old(self)@.insert(ftype).contains(
                t,
            ) by {
                old(self).0.lemma_get_set(ftype, true, t);
            }
            assert(self@ =~= old(self)@.insert(ftype));
        }
        !was
    }

    /// Takes `ftype` out; returns true if it was in the set before.
    pub fn remove(&mut self, ftype: FileType) -> (r: bool)
        ensures
            final(self)@ == old(self)@.remove(ftype),
            r == old(self)@.contains(ftype),
    {
        let slot = self.0.get_mut(ftype);
        let was = *slot;
        *slot = false;
        proof {
            assert forall|t: FileType| self@.contains(t) == old(self)@.remove(ftype).contains(
                t,
            ) by {
                old(self).0.lemma_get_set(ftype, false, t);
            }
            assert(self@ =~= old(self)@.remove(ftype));
        }
        was
    }
}

/// The parts of a text between its commas; a text without a comma is its
/// own single part, and the empty text has one empty part.
pub open spec fn split_commas(s: Seq<char>) -> Seq<Seq<char>>
    decreases s.len(),
{
    if s.len() == 0 {
        seq![Seq::empty()]
    } else {
        let before = split_commas(s.drop_last());
        if s.last() == ',' {
            before.push(Seq::empty())
        } else {
            before.drop_last().push(before.last().push(s.last()))
        }
    }
}

/// A text always has at least one part.
pub proof fn lemma_split_commas_nonempty(s: Seq<char>)
    ensures
        split_commas(s).len() >= 1,
    decreases s.len(),
{
    if s.len() > 0 {
        lemma_split_commas_nonempty(s.drop_last());
    }
}

/// The file type that one part of a list names, white space around the name
/// left aside.
pub open spec fn part_type(part: Seq<char>) -> Option<FileType> {
    file_type_of(trimmed(part))
}

/// Every one of the parts names a file type.
pub open spec fn all_name_types(parts: Seq<Seq<char>>) -> bool {
    forall|i: int| 0 <= i < parts.len() ==> part_type(#[trigger] parts[i]) is Some
}

/// The file types that the parts name.
pub open spec fn types_named(parts: Seq<Seq<char>>) -> Set<FileType> {
    Set::new(
        |t: FileType| exists|i: int| 0 <= i < parts.len() && part_type(#[trigger] parts[i]) == Some(t),
    )
}

impl FileTypes {
    /// Parses a list of type names, separated by commas. It fails where some
    /// part of the list is no type name; an asterisk is none.
    pub fn from_str(s: &str) -> (r: Result<FileTypes, InvalidFileType>)
        ensures
            r is Ok <==> all_name_types(split_commas(s@)),
            r matches Ok(types) ==> types@ == types_named(split_commas(s@)),
    {
        let mut set = FileTypes::empty();
        let n = s.unicode_len();
        let mut start: usize = 0;
        let mut i: usize = 0;
        while i < n
            invariant
                start <= i <= n,
                n == s@.len(),
                split_commas(s@.take(i as int)).len() >= 1,
                split_commas(s@.take(i as int)).last() == s@.subrange(start as int, i as int),
                all_name_types(split_commas(s@.take(i as int)).drop_last()),
                set@ == types_named(split_commas(s@.take(i as int)).drop_last()),
            decreases n - i,
        {
            let c = s.get_char(i);
            let ghost before = split_commas(s@.take(i as int));
            proof {
                assert(s@.take(i + 1).drop_last() =~= s@.take(i as int));
                lemma_split_commas_nonempty(s@.take(i + 1));
            }
            if c == ',' {
                let part = s.substring_char(start, i);
                match FileType::from_str(part.trim()) {
                    Ok(t) => {
                        set.insert(t);
                    },
                    Err(e) => {
                        proof {
                            lemma_prefix_part_stays(s@, i as int, before.len() - 1);
                        }
                        return Err(e);
                    },
                }
                proof {
                    let after = split_commas(s@.take(i + 1));
                    assert(after.drop_last() =~= before);
                    assert(before =~= before.drop_last().push(before.last()));
                    assert(set@ =~= types_named(before));
                }
                start = i + 1;
            } else {
                proof {
                    let after = split_commas(s@.take(i + 1));
                    assert(after.drop_last() =~= before.drop_last());
                    assert(s@.subrange(start as int, i + 1) =~= s@.subrange(
                        start as int,
                        i as int,
                    ).push(c));
                }
            }
            i = i + 1;
        }
        assert(s@.take(n as int) =~= s@);
        let ghost parts = split_commas(s@);
        let part = s.substring_char(start, n);
        match FileType::from_str(part.trim()) {
            Ok(t) => {
                set.insert(t);
            },
            Err(e) => {
                return Err(e);
            },
        }
        proof {
            assert forall|j: int| 0 <= j < parts.len() implies part_type(#[trigger] parts[j])
                is Some by {
                if j < parts.len() - 1 {
                    assert(parts.drop_last()[j] == parts[j]);
                }
            }
            assert forall|t: FileType| set@.contains(t) <==> types_named(parts).contains(t) by {
                if types_named(parts.drop_last()).contains(t) {
                    let j = choose|j: int|
                        0 <= j < parts.drop_last().len() && part_type(
                            #[trigger] parts.drop_last()[j],
                        ) == Some(t);
                    assert(parts[j] == parts.drop_last()[j]);
                }
                if types_named(parts).contains(t) {
                    let j = choose|j: int|
                        0 <= j < parts.len() && part_type(#[trigger] parts[j]) == Some(t);
                    if j < parts.len() - 1 {
                        assert(parts.drop_last()[j] == parts[j]);
                    }
                }
            }
        }
        Ok(set)
    }
}

/// A part that is closed by a comma is a part of the whole text: reading on
/// never changes it.
pub proof fn lemma_prefix_part_stays(s: Seq<char>, i: int, j: int)
    requires
        0 <= i < s.len(),
        s[i] == ',',
        0 <= j < split_commas(s.take(i)).len(),
    ensures
        j < split_commas(s).len(),
        split_commas(s)[j] == split_commas(s.take(i))[j],
{
    assert(s.take(i + 1).drop_last() =~= s.take(i));
    lemma_closed_parts_stay(s, i + 1, s.len() as int, j);
    assert(s.take(s.len() as int) =~= s);
}

/// The parts of the first `k` characters, but for the last of them, are
/// parts of the first `m` characters for every `m` from `k` on.
pub proof fn lemma_closed_parts_stay(s: Seq<char>, k: int, m: int, j: int)
    requires
        0 <= k <= m <= s.len(),
        0 <= j < split_commas(s.take(k)).len() - 1,
    ensures
        j < split_commas(s.take(m)).len() - 1,
        split_commas(s.take(m))[j] == split_commas(s.take(k))[j],
    decreases m - k,
{
    if m > k {
        lemma_closed_parts_stay(s, k, m - 1, j);
        assert(s.take(m).drop_last() =~= s.take(m - 1));
    }
}

/// A non-negative fraction `num / den`, the largest output-to-input size
/// ratio that still counts as a successful conversion.
#[derive(Debug, Clone, Copy, PartialEq, Eq, Structural)]
pub struct Ratio {
    pub num: u64,
    pub den: u64,
}

impl Ratio {
    /// Whether `output / input` is strictly greater than this ratio, stated
    /// without division: `output * den > input * num`.
    pub open spec fn spec_exceeded_by(self, output: u64, input: u64) -> bool {
        output * self.den > input * self.num
    }

    /// The ratio one: the output must not be larger than the input.
    pub fn one() -> (r: Self)
        ensures
            r == (Ratio { num: 1, den: 1 }),
    {
        Ratio { num: 1, den: 1 }
    }

    /// Whether an output of `output` bytes for an input of `input` bytes is
    /// too large to keep.
    #[verifier::when_used_as_spec(spec_exceeded_by)]
    pub fn exceeded_by(self, output: u64, input: u64) -> (r: bool)
        ensures
            r == self.spec_exceeded_by(output, input),
    {
        let lhs: u128 = widening_product(output, self.den);
        let rhs: u128 = widening_product(input, self.num);
        lhs > rhs
    }
}

/// The full product of two 64-bit numbers.
fn widening_product(a: u64, b: u64) -> (r: u128)
    ensures
        r == a * b,
{
    assert(a * b <= 0xffff_ffff_ffff_ffff * 0xffff_ffff_ffff_ffff) by (nonlinear_arith)
        requires
            a <= 0xffff_ffff_ffff_ffff,
            b <= 0xffff_ffff_ffff_ffff,
    ;
    (a as u128) * (b as u128)
}

/// The options of a run.
#[derive(Debug, Clone)]
pub struct Conv2JxlArgs {
    /// do not use Unicode characters in output.
    pub no_unicode: bool,
    /// process subdirectories recursively
    pub recurse: bool,
    /// maximum recursion depth; depth 0 is the given directories themselves.
    pub max_depth: u64,
    /// follow symbolic links when recursing and processing files.
    pub follow_links: bool,
    /// minimum recursion depth.
    pub min_depth: u64,
    /// overwrite existing files.
    pub overwrite: bool,
    /// delete original files after conversion.
    pub delete: bool,
    /// truncate the source file instead of deleting it; supersedes `delete`.
    pub truncate: bool,
    /// conversion quality, from 0 to 100, where 100 is lossless.
    pub quality: u8,
    /// the quality of the second attempt, made when the first is inefficient.
    pub quality_if_inefficient: Option<u8>,
    /// the smallest file size, in bytes, for which a second attempt is made.
    pub min_inefficient_size: Option<u64>,
    /// effort level, from 0 to 10.
    pub effort: u8,
    /// the largest output-to-input ratio that is accepted.
    pub min_ratio: Ratio,
    /// perform a trial run with no changes made.
    pub dry_run: bool,
    /// only convert files of at least this size in bytes.
    pub min_size: u64,
    /// only convert files of at most this size in bytes.
    pub max_size: u64,
    /// only convert images at least this wide.
    pub min_width: u32,
    /// only convert images at most this wide.
    pub max_width: u32,
    /// only convert images at least this high.
    pub min_height: u32,
    /// only convert images at most this high.
    pub max_height: u32,
    /// limit the number of files to convert.
    pub limit: Option<usize>,
    /// recompress JPEG files without loss.
    pub lossless_jpeg: bool,
    /// do not store what is needed to rebuild the original JPEG file.
    pub disable_jpeg_reconstruction: bool,
    /// the file types to convert.
    pub extensions: FileTypes,
    /// name the output `<stem>.jxl` instead of `<stem>.<ext>.jxl`.
    pub no_preserve_extension: bool,
    /// only files whose full path matches this pattern are processed.
    pub filter: Option<String>,
    /// files whose full path matches this pattern are skipped.
    pub exclude: Option<String>,
    /// number of files between two progress summaries.
    pub summary_interval: Option<usize>,
    /// number of threads each encoder process uses; -1 for all, 0 for one.
    pub threads: i32,
    /// number of encoder processes run side by side; -1 for one per core.
    pub parallel: i32,
    /// use progressive encoding.
    pub progressive: bool,
    /// sort files before conversion.
    pub sort: SortMethod,
    /// sort direction.
    pub sort_order: SortOrder,
    /// how far the sorted list is shuffled, in millionths: 0 leaves it as
    /// it is, 1 000 000 shuffles it fully.
    pub randomize: u32,
}

impl Default for Conv2JxlArgs {
    /// The options as they are when the user gives none.
    fn default() -> (r: Self)
        ensures
            r.quality == 100,
            r.quality_if_inefficient is None,
            r.min_inefficient_size is None,
            r.effort == 9,
            r.min_ratio == (Ratio { num: 1, den: 1 }),
            r.min_size == 0,
            r.max_size == u64::MAX,
            r.min_depth == 0,
            r.max_depth == u64::MAX,
            r.min_width == 0,
            r.max_width == u32::MAX,
            r.min_height == 0,
            r.max_height == u32::MAX,
            r.limit is None,
            r.lossless_jpeg,
            r.extensions@ == Set::<FileType>::empty().insert(FileType::PNG),
            r.filter is None,
            r.exclude is None,
            r.summary_interval is None,
            r.threads == 0,
            r.parallel == -1,
            r.sort == SortMethod::Unsorted,
            r.sort_order == SortOrder::Asc,
            r.randomize == 0,
            !r.no_unicode && !r.recurse && !r.follow_links && !r.overwrite && !r.delete
                && !r.truncate && !r.dry_run && !r.disable_jpeg_reconstruction
                && !r.no_preserve_extension && !r.progressive,
    {
        Conv2JxlArgs {
            no_unicode: false,
            recurse: false,
            max_depth: u64::MAX,
            follow_links: false,
            min_depth: 0,
            overwrite: false,
            delete: false,
            truncate: false,
            quality: 100,
            quality_if_inefficient: None,
            min_inefficient_size: None,
            effort: 9,
            min_ratio: Ratio::one(),
            dry_run: false,
            min_size: 0,
            max_size: u64::MAX,
            min_width: 0,
            max_width: u32::MAX,
            min_height: 0,
            max_height: u32::MAX,
            limit: None,
            lossless_jpeg: true,
            disable_jpeg_reconstruction: false,
            extensions: FileTypes::default(),
            no_preserve_extension: false,
            filter: None,
            exclude: None,
            summary_interval: None,
            threads: 0,
            parallel: -1,
            progressive: false,
            sort: SortMethod::Unsorted,
            sort_order: SortOrder::Asc,
            randomize: 0,
        }
    }
}

impl Conv2JxlArgs {
    /// The options after [`Conv2JxlArgs::normalize`]: every value is brought
    /// into its range, and `-1` encoder processes becomes `available`.
    pub open spec fn normalized(self, available: i32) -> Self {
        let min_size = if self.min_size < 1 {
            1
        } else {
            self.min_size
        };
        Conv2JxlArgs {
            threads: if self.threads < -1 {
                -1i32
            } else {
                self.threads
            },
            quality: if self.quality > 100 {
                100
            } else {
                self.quality
            },
            effort: if self.effort > 10 {
                10
            } else {
                self.effort
            },
            min_size,
            max_size: if self.max_size < min_size {
                min_size
            } else {
                self.max_size
            },
            max_depth: if self.max_depth < self.min_depth {
                self.min_depth
            } else {
                self.max_depth
            },
            parallel: if self.parallel == -1 {
                available
            } else if self.parallel < 1 {
                1
            } else {
                self.parallel
            },
            randomize: if self.randomize > 1_000_000 {
                1_000_000
            } else {
                self.randomize
            },
            ..self
        }
    }

    /// Brings every option into its range. Empty files are always left out,
    /// the upper bounds are raised to the lower ones, and a request for one
    /// encoder process per core is replaced by `available`, the number of
    /// cores that the caller found.
    pub fn normalize(&mut self, available: i32)
        ensures
            *final(self) == old(self).normalized(available),
    {
        let threads: i32 = if self.threads < -1 {
            -1
        } else {
            self.threads
        };
        let quality: u8 = if self.quality > 100 {
            100
        } else {
            self.quality
        };
        let effort: u8 = if self.effort > 10 {
            10
        } else {
            self.effort
        };
        let min_size: u64 = if self.min_size < 1 {
            1
        } else {
            self.min_size
        };
        let max_size: u64 = if self.max_size < min_size {
            min_size
        } else {
            self.max_size
        };
        let max_depth: u64 = if self.max_depth < self.min_depth {
            self.min_depth
        } else {
            self.max_depth
        };
        let parallel: i32 = if self.parallel == -1 {
            available
        } else if self.parallel < 1 {
            1
        } else {
            self.parallel
        };
        let randomize: u32 = if self.randomize > 1_000_000 {
            1_000_000
        } else {
            self.randomize
        };
        self.randomize = randomize;
        self.threads = threads;
        self.quality = quality;
        self.effort = effort;
        self.min_size = min_size;
        self.max_size = max_size;
        self.max_depth = max_depth;
        self.parallel = parallel;
    }

    /// The size lies within the bounds on the file size, ends included.
    pub open spec fn spec_admits_size(&self, len: u64) -> bool {
        self.min_size <= len <= self.max_size
    }

    /// Whether a file of `len` bytes is within the bounds on the file size.
    #[verifier::when_used_as_spec(spec_admits_size)]
    pub fn admits_size(&self, len: u64) -> (r: bool)
        ensures
            r == self.spec_admits_size(len),
    {
        self.min_size <= len && len <= self.max_size
    }

    /// The file type of a file with the given extension, if the extension
    /// names a type and the type is among those to convert.
    pub open spec fn spec_wanted(&self, extension: Option<Seq<char>>) -> Option<FileType> {
        match extension {
            Some(e) => match file_type_of(e) {
                Some(t) => if self.extensions@.contains(t) {
                    Some(t)
                } else {
                    None
                },
                None => None,
            },
            None => None,
        }
    }

    /// The type of a file with the given extension, if it is to be
    /// converted.
    pub fn wanted(&self, extension: Option<&str>) -> (r: Option<FileType>)
        ensures
            r == self.spec_wanted(
                match extension {
                    Some(e) => Some(e@),
                    None => None,
                },
            ),
    {
        match extension {
            Some(e) => match FileType::from_str(e) {
                Ok(t) => if self.extensions.contains(t) {
                    Some(t)
                } else {
                    None
                },
                Err(_) => None,
            },
            None => None,
        }
    }

    /// The number of workers: the number of encoder processes run side by
    /// side, none where that number is not positive.
    pub open spec fn spec_workers(&self) -> usize {
        if self.parallel > 0 {
            self.parallel as usize
        } else {
            0
        }
    }

    /// The number of workers of the run.
    #[verifier::when_used_as_spec(spec_workers)]
    pub fn workers(&self) -> (r: usize)
        ensures
            r == self.spec_workers(),
    {
        if self.parallel > 0 {
            self.parallel as usize
        } else {
            0
        }
    }

    /// Some bound on the image dimensions is set, so that the dimensions
    /// have to be read before a file is converted.
    pub open spec fn spec_has_bounds(&self) -> bool {
        self.min_width > 0 || self.min_height > 0 || self.max_width < u32::MAX || self.max_height
            < u32::MAX
    }

    /// Whether any bound on the image dimensions is set.
    #[verifier::when_used_as_spec(spec_has_bounds)]
    pub fn has_bounds(&self) -> (r: bool)
        ensures
            r == self.spec_has_bounds(),
    {
        self.min_width > 0 || self.min_height > 0 || self.max_width < u32::MAX || self.max_height
            < u32::MAX
    }

    /// The dimensions lie within the bounds, ends included.
    pub open spec fn spec_admits_dimensions(&self, width: u32, height: u32) -> bool {
        self.min_width <= width <= self.max_width && self.min_height <= height <= self.max_height
    }

    /// Whether an image of the given dimensions is within the bounds.
    #[verifier::when_used_as_spec(spec_admits_dimensions)]
    pub fn admits_dimensions(&self, width: u32, height: u32) -> (r: bool)
        ensures
            r == self.spec_admits_dimensions(width, height),
    {
        self.min_width <= width && width <= self.max_width && self.min_height <= height && height
            <= self.max_height
    }

    /// The accepted image widths.
    pub fn width(&self) -> (r: core::ops::RangeInclusive<u32>)
        ensures
            r@.start == self.min_width,
            r@.end == self.max_width,
            !r@.exhausted,
    {
        core::ops::RangeInclusive::new(self.min_width, self.max_width)
    }

    /// The accepted image heights.
    pub fn height(&self) -> (r: core::ops::RangeInclusive<u32>)
        ensures
            r@.start == self.min_height,
            r@.end == self.max_height,
            !r@.exhausted,
    {
        core::ops::RangeInclusive::new(self.min_height, self.max_height)
    }
}

} // verus!
