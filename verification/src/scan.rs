//! The decisions of the scan that builds the work list: which directory
//! entries are read, followed, entered or left out, in which order the files
//! are converted, and how the counters of a run are seeded. Reading the
//! directories is the caller's part.

use rand::rngs::SmallRng;
use vstd::prelude::*;
use crate::cli::{Conv2JxlArgs, FileType, PerFileType, SortMethod};
use crate::convert::{admissible, ConversionState, PhaseView, ThreadState, NO_FILE};
use crate::order::{arrange, arranged, cut, in_order, limit, randomize};
use crate::outcome::FileEntry;
use crate::pattern::Patterns;

verus! {

/// What was found for one file type.
#[derive(Debug, Clone, Copy, PartialEq, Eq, Structural)]
pub struct FileScanObserver {
    pub found: u64,
    pub bytes: u64,
}

/// What the scan has found so far. The counters wrap on overflow.
#[derive(Debug)]
pub struct ScanObserver {
    pub dir_read: u64,
    pub dir_found: u64,
    pub files: PerFileType<FileScanObserver>,
}

impl Default for FileScanObserver {
    fn default() -> (r: Self)
        ensures
            r == (FileScanObserver { found: 0, bytes: 0 }),
    {
        FileScanObserver { found: 0, bytes: 0 }
    }
}

impl Default for ScanObserver {
    fn default() -> (r: Self)
        ensures
            r.dir_read == 0,
            r.dir_found == 0,
            forall|c: FileType|
                #[trigger] r.files.spec_get(c) == (FileScanObserver { found: 0, bytes: 0 }),
    {
        ScanObserver {
            dir_read: 0,
            dir_found: 0,
            files: PerFileType {
                JXL: FileScanObserver::default(),
                PPM: FileScanObserver::default(),
                PNM: FileScanObserver::default(),
                PFM: FileScanObserver::default(),
                PAM: FileScanObserver::default(),
                PGX: FileScanObserver::default(),
                PNG: FileScanObserver::default(),
                APNG: FileScanObserver::default(),
                GIF: FileScanObserver::default(),
                JPEG: FileScanObserver::default(),
                TIFF: FileScanObserver::default(),
                TGA: FileScanObserver::default(),
                QOI: FileScanObserver::default(),
                BMP: FileScanObserver::default(),
            },
        }
    }
}

impl ScanObserver {
    /// Counts a file of type `ext` and `len` bytes.
    pub fn file_found(&mut self, ext: FileType, len: u64)
        ensures
            final(self).files == old(self).files.spec_set(
                ext,
                FileScanObserver {
                    found: old(self).files.spec_get(ext).found.wrapping_add(1),
                    bytes: old(self).files.spec_get(ext).bytes.wrapping_add(len),
                },
            ),
            final(self).dir_read == old(self).dir_read,
            final(self).dir_found == old(self).dir_found,
    {
        let f = self.files.get_mut(ext);
        f.found = f.found.wrapping_add(1);
        f.bytes = f.bytes.wrapping_add(len);
    }

    /// Counts a directory that is going to be read.
    pub fn directory_found(&mut self)
        ensures
            final(self).dir_found == old(self).dir_found.wrapping_add(1),
            final(self).dir_read == old(self).dir_read,
            final(self).files == old(self).files,
    {
        self.dir_found = self.dir_found.wrapping_add(1);
    }

    /// Counts a directory that is being read.
    pub fn directory_read(&mut self)
        ensures
            final(self).dir_read == old(self).dir_read.wrapping_add(1),
            final(self).dir_found == old(self).dir_found,
            final(self).files == old(self).files,
    {
        self.dir_read = self.dir_read.wrapping_add(1);
    }

    /// Replaces what was found for each type by what the work list holds in
    /// the end: its files of that type and their bytes.
    pub fn set_totals(&mut self, state: &ConversionState)
        ensures
            forall|c: FileType|
                #[trigger] final(self).files.spec_get(c) == (FileScanObserver {
                    found: state.counters().spec_get(c).total as u64,
                    bytes: state.counters().spec_get(c).total_bytes,
                }),
            final(self).dir_read == old(self).dir_read,
            final(self).dir_found == old(self).dir_found,
    {
        let all = FileType::all();
        let mut k: usize = 0;
        while k < 14
            invariant
                k <= 14,
                all@ == FileType::spec_all(),
                self.dir_read == old(self).dir_read,
                self.dir_found == old(self).dir_found,
                forall|j: int|
                    0 <= j < k ==> #[trigger] self.files.spec_get(FileType::spec_all()[j]) == (
                    FileScanObserver {
                        found: state.counters().spec_get(FileType::spec_all()[j]).total as u64,
                        bytes: state.counters().spec_get(FileType::spec_all()[j]).total_bytes,
                    }),
            decreases 14 - k,
        {
            let p = state.progress(all[k]);
            let ghost before = self.files;
            let f = self.files.get_mut(all[k]);
            f.found = p.total as u64;
            f.bytes = p.total_bytes;
            proof {
                FileType::lemma_all_types();
                assert(forall|j: int|
                    0 <= j < k ==> #[trigger] self.files.spec_get(FileType::spec_all()[j])
                        == before.spec_get(FileType::spec_all()[j]));
            }
            k = k + 1;
        }
    }
}

/// What a directory entry is, as the directory listing says.
#[derive(Debug, Clone, Copy, PartialEq, Eq, Structural)]
pub enum EntryKind {
    File,
    Dir,
    Symlink,
    Other,
}

/// What the scan does with a directory entry.
#[derive(Debug, Clone, Copy, PartialEq, Eq, Structural)]
pub enum Screen {
    /// Leave it out.
    Skip,
    /// Leave it out and count it as excluded by the path patterns.
    Excluded,
    /// Find out what the link points to, then [`settle`] that.
    Follow,
    /// Read the directory, one level deeper, unless it was read before.
    Descend,
    /// Read the file's size; the file joins the work list with this type if
    /// the size is within the bounds.
    Stat(FileType),
}

/// What becomes of an entry once it is known not to be a link, or what the
/// link points to: a directory is entered when recursing, a file at or below
/// the least depth is kept for its size to be read, anything else is left
/// out. `ext` is the file type found for the entry's name.
pub open spec fn spec_settle(args: Conv2JxlArgs, depth: u64, kind: EntryKind, ext: Option<FileType>)
    -> Screen {
    if kind == EntryKind::Dir {
        if args.recurse {
            Screen::Descend
        } else {
            Screen::Skip
        }
    } else if kind != EntryKind::File || depth < args.min_depth {
        Screen::Skip
    } else {
        match ext {
            Some(t) => Screen::Stat(t),
            None => Screen::Skip,
        }
    }
}

/// What the scan does with the entry of kind `kind`, found at depth `depth`
/// with the given extension and path; the path is absent where it is no
/// valid text, and such an entry is never excluded by a pattern. A file of
/// an unwanted type is left out at once. Then the patterns are asked. A link
/// is followed only where that is switched on. The rest is as
/// [`spec_settle`] says.
pub open spec fn spec_screen(
    args: Conv2JxlArgs,
    patterns: Patterns,
    depth: u64,
    kind: EntryKind,
    extension: Option<Seq<char>>,
    path: Option<Seq<char>>,
) -> Screen {
    if kind == EntryKind::File && args.spec_wanted(extension) is None {
        Screen::Skip
    } else if patterns.is_set() && path is Some && patterns.spec_excludes(path->0) {
        Screen::Excluded
    } else if kind == EntryKind::Symlink {
        if args.follow_links {
            Screen::Follow
        } else {
            Screen::Skip
        }
    } else {
        spec_settle(
            args,
            depth,
            kind,
            if kind == EntryKind::File {
                args.spec_wanted(extension)
            } else {
                None
            },
        )
    }
}

/// Decides what becomes of an entry that is no link, or of what a link
/// points to. A file must come with its type: the caller has none for a file
/// that it reached through a link, and has to give up there.
pub fn settle(args: &Conv2JxlArgs, depth: u64, kind: EntryKind, ext: Option<FileType>) -> (r:
    Screen)
    requires
        kind == EntryKind::File && depth >= args.min_depth ==> ext is Some,
    ensures
        r == spec_settle(*args, depth, kind, ext),
{
    match kind {
        EntryKind::Dir => {
            if args.recurse {
                Screen::Descend
            } else {
                Screen::Skip
            }
        },
        EntryKind::File => {
            if depth < args.min_depth {
                Screen::Skip
            } else {
                match ext {
                    Some(t) => Screen::Stat(t),
                    None => Screen::Skip,
                }
            }
        },
        _ => Screen::Skip,
    }
}

/// Decides what the scan does with a directory entry.
pub fn screen(
    args: &Conv2JxlArgs,
    patterns: &Patterns,
    depth: u64,
    kind: EntryKind,
    extension: Option<&str>,
    path: Option<&str>,
) -> (r: Screen)
    ensures
        r == spec_screen(
            *args,
            *patterns,
            depth,
            kind,
            match extension {
                Some(e) => Some(e@),
                None => None,
            },
            match path {
                Some(p) => Some(p@),
                None => None,
            },
        ),
{
    let ext = match kind {
        EntryKind::File => {
            match args.wanted(extension) {
                Some(t) => Some(t),
                None => {
                    return Screen::Skip;
                },
            }
        },
        _ => None,
    };
    if patterns.is_set() {
        match path {
            Some(p) => {
                if patterns.excludes(p) {
                    return Screen::Excluded;
                }
            },
            None => {},
        }
    }
    match kind {
        EntryKind::Symlink => {
            if args.follow_links {
                Screen::Follow
            } else {
                Screen::Skip
            }
        },
        _ => settle(args, depth, kind, ext),
    }
}

/// What the scan does with a path that the user named.
#[derive(Debug, Clone, Copy, PartialEq, Eq, Structural)]
pub enum Root {
    /// Leave it out.
    Skip,
    /// Read the directory, at depth 0, unless it was read before.
    Dir,
    /// The file joins the work list with this type.
    File(FileType),
}

/// What the scan does with a path that the user named: a file joins the work
/// list if its size is within the bounds and its type is wanted; a
/// directory is read; a file outside the size bounds that is no directory is
/// left out, as is anything else.
pub open spec fn spec_screen_root(
    args: Conv2JxlArgs,
    kind: EntryKind,
    len: u64,
    extension: Option<Seq<char>>,
) -> Root {
    if kind == EntryKind::File && args.admits_size(len) {
        match args.spec_wanted(extension) {
            Some(t) => Root::File(t),
            None => Root::Skip,
        }
    } else if kind == EntryKind::Dir {
        Root::Dir
    } else {
        Root::Skip
    }
}

/// Decides what the scan does with a path that the user named.
pub fn screen_root(args: &Conv2JxlArgs, kind: EntryKind, len: u64, extension: Option<&str>) -> (r:
    Root)
    ensures
        r == spec_screen_root(
            *args,
            kind,
            len,
            match extension {
                Some(e) => Some(e@),
                None => None,
            },
        ),
{
    match kind {
        EntryKind::File => {
            if args.admits_size(len) {
                match args.wanted(extension) {
                    Some(t) => Root::File(t),
                    None => Root::Skip,
                }
            } else {
                Root::Skip
            }
        },
        EntryKind::Dir => Root::Dir,
        _ => Root::Skip,
    }
}

/// Whether a directory found at depth `depth` is read at all.
pub fn reads_directory(args: &Conv2JxlArgs, depth: u64) -> (r: bool)
    ensures
        r == (depth <= args.max_depth),
{
    depth <= args.max_depth
}

/// The first files of a list are among the files of the list.
pub proof fn lemma_take_is_part<A>(s: Seq<A>, n: int)
    requires
        0 <= n <= s.len(),
    ensures
        s.take(n).to_multiset().subset_of(s.to_multiset()),
{
    broadcast use vstd::multiset::group_multiset_axioms;

    vstd::seq_lib::lemma_multiset_commutative(s.take(n), s.skip(n));
    assert(s.take(n) + s.skip(n) =~= s);
}

/// The list `after` is what preparing makes of the list `before`: there is
/// a list of all the files of `before`, none lost and none added, of which
/// `after` is the first files up to the limit; and where nothing is
/// shuffled, that list is `before` sorted as the options say.
pub open spec fn prepared(before: Seq<FileEntry>, after: Seq<FileEntry>, args: Conv2JxlArgs) -> bool {
    exists|whole: Seq<FileEntry>|
        {
            &&& #[trigger] cut(whole, args.limit) == after
            &&& whole.to_multiset() == before.to_multiset()
            &&& args.randomize == 0 ==> arranged(before, whole, args.sort, args.sort_order)
        }
}

/// Brings the files that were found into the order of the run: sorted as
/// the options say, shuffled as far as they say, and cut off at the limit,
/// so that the first files of the sorted and shuffled list stay. Every file
/// of the result was found, and without a limit every file that was found
/// is in the result. Without shuffling, the result is sorted.
pub fn prepare(files: &mut Vec<FileEntry>, args: &Conv2JxlArgs, rng: &mut SmallRng)
    requires
        args.randomize <= 1_000_000,
    ensures
        prepared(old(files)@, final(files)@, *args),
        final(files)@.to_multiset().subset_of(old(files)@.to_multiset()),
        final(files)@.len() == match args.limit {
            Some(n) => if n < old(files)@.len() {
                n as nat
            } else {
                old(files)@.len()
            },
            None => old(files)@.len(),
        },
        final(files)@.len() == old(files)@.len() ==> final(files)@.to_multiset()
            == old(files)@.to_multiset(),
        args.randomize == 0 ==> forall|a: int, b: int|
            0 <= a < b < final(files)@.len() ==> in_order(
                #[trigger] final(files)@[a],
                #[trigger] final(files)@[b],
                args.sort,
                args.sort_order,
            ),
        args.randomize == 0 && args.sort == SortMethod::Unsorted && args.limit is None
            ==> final(files)@ == old(files)@,
{
    arrange(files, args.sort, args.sort_order);
    randomize(files, args.randomize, rng);
    let ghost shuffled = files@;
    proof {
        shuffled.to_multiset_ensures();
        old(files)@.to_multiset_ensures();
    }
    limit(files, args.limit);
    proof {
        if files@.len() < shuffled.len() {
            lemma_take_is_part(shuffled, files@.len() as int);
        }
        assert(cut(shuffled, args.limit) == files@);
        assert(prepared(old(files)@, files@, *args));
    }
}

/// Makes the state of the run from the prepared work list, with one worker
/// for each encoder process that the options ask for, and reports what the
/// list holds of each type to the observer. There is no state where the
/// files are not [`admissible`]; the observer is then left as it is.
pub fn seed(
    files: Vec<FileEntry>,
    args: &Conv2JxlArgs,
    excluded: usize,
    observer: &mut ScanObserver,
) -> (r: Option<ConversionState>)
    ensures
        r is Some <==> admissible(files@),
        r matches Some(state) ==> {
            &&& state.wf()
            &&& state.files() == files@
            &&& state.cursor() == 0
            &&& state.claimed() == 0
            &&& state.slots() == Seq::new(
                args.spec_workers() as nat,
                |s: int| ThreadState { file_idx: NO_FILE, start_time: 0 },
            )
            &&& state.phases() == Seq::new(args.spec_workers() as nat, |s: int| PhaseView::Idle)
            &&& !state.is_paused()
            &&& state.spec_excluded() == excluded
            &&& forall|c: FileType|
                (#[trigger] state.counters().spec_get(c)).output_bytes == 0
                    && state.counters().spec_get(c).elapsed == 0
            &&& forall|c: FileType|
                #[trigger] final(observer).files.spec_get(c) == (FileScanObserver {
                    found: state.counters().spec_get(c).total as u64,
                    bytes: state.counters().spec_get(c).total_bytes,
                })
        },
        r is None ==> final(observer).files == old(observer).files,
        final(observer).dir_read == old(observer).dir_read,
        final(observer).dir_found == old(observer).dir_found,
{
    match ConversionState::new(files, args.workers(), excluded) {
        Some(state) => {
            observer.set_totals(&state);
            Some(state)
        },
        None => None,
    }
}

} // verus!
