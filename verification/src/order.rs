//! The order in which the files are converted: sorted as the options ask,
//! then shuffled more or less, then cut off at the limit.

use rand::rngs::SmallRng;
use rand::seq::SliceRandom;
use rand::Rng;
use std::cmp::Ordering;
use vstd::prelude::*;
use crate::cli::{SortMethod, SortOrder};
use crate::outcome::FileEntry;

verus! {

/// The small fast generator of random numbers of the `rand` crate.
#[verifier::external_type_specification]
#[verifier::external_body]
pub struct ExSmallRng(SmallRng);

/// How `Path` orders two paths: -1 where the first comes first, 1 where the
/// second does, 0 where they are the same path.
pub uninterp spec fn path_order(a: Seq<char>, b: Seq<char>) -> int;

/// The pair of numbers by which a file is sorted. Pairs are compared by
/// their first number, then by their second. For a time that is not known
/// the pair is lower than for any that is; descending orders count down
/// from the largest number, so that the largest comes first.
pub open spec fn spec_sort_key(e: FileEntry, method: SortMethod, order: SortOrder) -> (u64, u64) {
    let time = match method {
        SortMethod::MTime => e.metadata.modified,
        SortMethod::CTime => e.metadata.created,
        SortMethod::ATime => e.metadata.accessed,
        _ => None,
    };
    match method {
        SortMethod::Unsorted => (0, 0),
        SortMethod::Name => (0, 0),
        SortMethod::Size => match order {
            SortOrder::Asc => (0, e.metadata.len),
            SortOrder::Desc => (0, mirror(e.metadata.len)),
        },
        _ => match (order, time) {
            (SortOrder::Asc, None) => (0, 0),
            (SortOrder::Asc, Some(t)) => (1, t),
            (SortOrder::Desc, Some(t)) => (0, mirror(t)),
            (SortOrder::Desc, None) => (1, 0),
        },
    }
}

/// The number counted down from the largest there is: a larger number has
/// a smaller mirror image, and mirroring twice gives the number back.
pub open spec fn mirror(n: u64) -> u64 {
    (u64::MAX - n) as u64
}

/// The first pair is not greater than the second.
pub open spec fn key_le(a: (u64, u64), b: (u64, u64)) -> bool {
    a.0 < b.0 || (a.0 == b.0 && a.1 <= b.1)
}

/// The first time is not later than the second, an unknown time being
/// earlier than any known one.
pub open spec fn time_le(a: Option<u64>, b: Option<u64>) -> bool {
    match (a, b) {
        (None, _) => true,
        (Some(_), None) => false,
        (Some(x), Some(y)) => x <= y,
    }
}

/// The file `x` may stand before the file `y` in a list sorted by `method`
/// in the direction `order`.
pub open spec fn in_order(x: FileEntry, y: FileEntry, method: SortMethod, order: SortOrder) -> bool {
    match (method, order) {
        (SortMethod::Unsorted, _) => true,
        (SortMethod::Size, SortOrder::Asc) => x.metadata.len <= y.metadata.len,
        (SortMethod::Size, SortOrder::Desc) => x.metadata.len >= y.metadata.len,
        (SortMethod::Name, SortOrder::Asc) => path_order(x.path@, y.path@) <= 0,
        (SortMethod::Name, SortOrder::Desc) => path_order(y.path@, x.path@) <= 0,
        (SortMethod::MTime, SortOrder::Asc) => time_le(x.metadata.modified, y.metadata.modified),
        (SortMethod::MTime, SortOrder::Desc) => time_le(y.metadata.modified, x.metadata.modified),
        (SortMethod::CTime, SortOrder::Asc) => time_le(x.metadata.created, y.metadata.created),
        (SortMethod::CTime, SortOrder::Desc) => time_le(y.metadata.created, x.metadata.created),
        (SortMethod::ATime, SortOrder::Asc) => time_le(x.metadata.accessed, y.metadata.accessed),
        (SortMethod::ATime, SortOrder::Desc) => time_le(y.metadata.accessed, x.metadata.accessed),
    }
}

/// The pair of numbers by which a file is sorted.
pub fn sort_key(e: &FileEntry, method: SortMethod, order: SortOrder) -> (r: (u64, u64))
    ensures
        r == spec_sort_key(*e, method, order),
{
    let time = match method {
        SortMethod::MTime => e.metadata.modified,
        SortMethod::CTime => e.metadata.created,
        SortMethod::ATime => e.metadata.accessed,
        _ => None,
    };
    match method {
        SortMethod::Unsorted => (0, 0),
        SortMethod::Name => (0, 0),
        SortMethod::Size => match order {
            SortOrder::Asc => (0, e.metadata.len),
            SortOrder::Desc => (0, u64::MAX - e.metadata.len),
        },
        _ => match (order, time) {
            (SortOrder::Asc, None) => (0, 0),
            (SortOrder::Asc, Some(t)) => (1, t),
            (SortOrder::Desc, Some(t)) => (0, u64::MAX - t),
            (SortOrder::Desc, None) => (1, 0),
        },
    }
}

/// A list sorted by the pairs of its files is in the order that the method
/// and the direction ask for.
pub proof fn lemma_keys_give_order(x: FileEntry, y: FileEntry, method: SortMethod, order: SortOrder)
    requires
        method != SortMethod::Name,
        key_le(spec_sort_key(x, method, order), spec_sort_key(y, method, order)),
    ensures
        in_order(x, y, method, order),
{
}

/// The number that stands for a result of a comparison: -1 for less, 0 for
/// equal, 1 for greater.
pub open spec fn sign(o: Ordering) -> int {
    match o {
        Ordering::Less => -1,
        Ordering::Equal => 0,
        Ordering::Greater => 1,
    }
}

/// `Path::cmp` on the two paths. The result, as a number, is named
/// [`path_order`].
#[verifier::external_body]
fn compare_paths(a: &str, b: &str) -> (r: Ordering)
    ensures
        sign(r) == path_order(a@, b@),
{
    std::path::Path::new(a).cmp(std::path::Path::new(b))
}

/// The two texts name the same path: `Path` finds the same components in
/// both.
pub open spec fn spec_same_path(a: Seq<char>, b: Seq<char>) -> bool {
    path_order(a, b) == 0
}

/// Whether the two texts name the same path.
pub fn same_path(a: &str, b: &str) -> (r: bool)
    ensures
        r == spec_same_path(a@, b@),
{
    matches!(compare_paths(a, b), Ordering::Equal)
}

/// How two files compare by path in the given direction: negative where the
/// first may only stand before the second, positive where only after it.
pub open spec fn spec_compare_by_path(x: FileEntry, y: FileEntry, order: SortOrder) -> int {
    match order {
        SortOrder::Asc => path_order(x.path@, y.path@),
        SortOrder::Desc => path_order(y.path@, x.path@),
    }
}

/// Compares two files by path, in the given direction.
pub fn compare_by_path(x: &FileEntry, y: &FileEntry, order: SortOrder) -> (r: Ordering)
    ensures
        sign(r) == spec_compare_by_path(*x, *y, order),
{
    match order {
        SortOrder::Asc => compare_paths(x.path.as_str(), y.path.as_str()),
        SortOrder::Desc => compare_paths(y.path.as_str(), x.path.as_str()),
    }
}

/// `slice::sort_by_key` with the pair of [`sort_key`] as the key: the files
/// are rearranged, none lost and none added, so that the pairs never
/// decrease. The sort is stable: two files with the same pair stand in the
/// order in which they stood before.
#[verifier::external_body]
fn sort_by_key(files: &mut Vec<FileEntry>, method: SortMethod, order: SortOrder)
    ensures
        final(files)@.to_multiset() == old(files)@.to_multiset(),
        forall|a: int, b: int|
            0 <= a < b < final(files)@.len() ==> key_le(
                spec_sort_key(#[trigger] final(files)@[a], method, order),
                spec_sort_key(#[trigger] final(files)@[b], method, order),
            ),
        forall|a: int, b: int|
            0 <= a < b < final(files)@.len() && spec_sort_key(final(files)@[a], method, order)
                == spec_sort_key(final(files)@[b], method, order) ==> exists|i: int, j: int|
                0 <= i < j < old(files)@.len() && old(files)@[i] == #[trigger] final(files)@[a]
                    && old(files)@[j] == #[trigger] final(files)@[b],
{
    files.sort_by_key(|f| sort_key(f, method, order));
}

/// `slice::sort_by` with [`compare_by_path`] as the order: the files are
/// rearranged, none lost and none added, so that no file stands before one
/// that the order puts first.
#[verifier::external_body]
fn sort_by_path(files: &mut Vec<FileEntry>, order: SortOrder)
    ensures
        final(files)@.to_multiset() == old(files)@.to_multiset(),
        forall|a: int, b: int|
            0 <= a < b < final(files)@.len() ==> spec_compare_by_path(
                #[trigger] final(files)@[a],
                #[trigger] final(files)@[b],
                order,
            ) <= 0,
{
    files.sort_by(|x, y| compare_by_path(x, y, order));
}

/// The list `after` is the list `before` sorted by `method` in the direction
/// `order`: no file is lost and none is added, every file may stand before
/// all that follow it, and without a method the list is as it was.
pub open spec fn arranged(
    before: Seq<FileEntry>,
    after: Seq<FileEntry>,
    method: SortMethod,
    order: SortOrder,
) -> bool {
    &&& after.to_multiset() == before.to_multiset()
    &&& forall|a: int, b: int|
        0 <= a < b < after.len() ==> in_order(#[trigger] after[a], #[trigger] after[b], method, order)
    &&& method == SortMethod::Unsorted ==> after == before
}

/// Sorts the files by `method` in the direction `order`. No file is lost
/// and none is added; afterwards every file may stand before all that
/// follow it. Without a method the list is left as it is.
pub fn arrange(files: &mut Vec<FileEntry>, method: SortMethod, order: SortOrder)
    ensures
        arranged(old(files)@, final(files)@, method, order),
        final(files)@.to_multiset() == old(files)@.to_multiset(),
        forall|a: int, b: int|
            0 <= a < b < final(files)@.len() ==> in_order(
                #[trigger] final(files)@[a],
                #[trigger] final(files)@[b],
                method,
                order,
            ),
        method == SortMethod::Unsorted ==> final(files)@ == old(files)@,
{
    match method {
        SortMethod::Unsorted => {},
        SortMethod::Name => {
            sort_by_path(files, order);
        },
        _ => {
            sort_by_key(files, method, order);
            assert forall|a: int, b: int| 0 <= a < b < files@.len() implies in_order(
                #[trigger] files@[a],
                #[trigger] files@[b],
                method,
                order,
            ) by {
                lemma_keys_give_order(files@[a], files@[b], method, order);
            }
        },
    }
}

/// `SliceRandom::shuffle`: the files are rearranged at random, none lost
/// and none added.
#[verifier::external_body]
fn shuffle(files: &mut Vec<FileEntry>, rng: &mut SmallRng)
    ensures
        final(files)@.to_multiset() == old(files)@.to_multiset(),
{
    files.shuffle(rng);
}

/// `Rng::random_ratio`: true with a chance of `numerator` in `denominator`.
/// Nothing is promised of the result.
#[verifier::external_body]
fn chance(rng: &mut SmallRng, numerator: u32, denominator: u32) -> bool
    requires
        denominator > 0,
        numerator <= denominator,
{
    rng.random_ratio(numerator, denominator)
}

/// `Rng::random_range` on `low..=high`: some number of that range.
#[verifier::external_body]
fn pick(rng: &mut SmallRng, low: usize, high: usize) -> (r: usize)
    requires
        low <= high,
    ensures
        low <= r <= high,
{
    rng.random_range(low..=high)
}

/// `slice::swap`: the two files change places.
#[verifier::external_body]
fn swap(files: &mut Vec<FileEntry>, a: usize, b: usize)
    requires
        a < old(files)@.len(),
        b < old(files)@.len(),
    ensures
        final(files)@ == old(files)@.update(a as int, old(files)@[b as int]).update(
            b as int,
            old(files)@[a as int],
        ),
{
    files.swap(a, b);
}

/// Exchanging two places of a list neither loses nor adds anything.
pub proof fn lemma_swap_keeps_all<A>(s: Seq<A>, a: int, b: int)
    requires
        0 <= a < s.len(),
        0 <= b < s.len(),
    ensures
        s.update(a, s[b]).update(b, s[a]).to_multiset() == s.to_multiset(),
{
    broadcast use vstd::multiset::group_multiset_axioms;

    vstd::seq_lib::to_multiset_update(s, a, s[b]);
    vstd::seq_lib::to_multiset_update(s.update(a, s[b]), b, s[a]);
    vstd::seq_lib::to_multiset_contains(s, s[a]);
    vstd::seq_lib::to_multiset_contains(s, s[b]);
}

/// How many places a file can move back when the list is shuffled in part:
/// the share `factor`, in millionths, of the length of the list, rounded
/// up, and at least one.
pub open spec fn spec_reach(len: usize, factor: u32) -> int {
    let share = (len * factor + 999_999) / 1_000_000;
    if share < 1 {
        1
    } else {
        share
    }
}

/// How many places a file can move back when the list is shuffled in part.
pub fn reach(len: usize, factor: u32) -> (r: usize)
    requires
        factor <= 1_000_000,
    ensures
        r == spec_reach(len, factor),
        r >= 1,
{
    assert(len * factor <= 0xffff_ffff_ffff_ffff * 1_000_000) by (nonlinear_arith)
        requires
            len <= 0xffff_ffff_ffff_ffff,
            factor <= 1_000_000,
    ;
    let share: u128 = ((len as u128) * (factor as u128) + 999_999) / 1_000_000;
    assert(share <= len) by (nonlinear_arith)
        requires
            share == (len * factor + 999_999) / 1_000_000,
            factor <= 1_000_000,
            len >= 0,
    ;
    if share < 1 {
        1
    } else {
        share as usize
    }
}

/// The first of the places with which the file at place `i` can be
/// exchanged: `width` places before it, or the first place of the list.
pub open spec fn spec_window_start(i: usize, width: usize) -> usize {
    if i >= width {
        (i - width) as usize
    } else {
        0
    }
}

/// The first of the places with which the file at place `i` can be
/// exchanged.
#[verifier::when_used_as_spec(spec_window_start)]
pub fn window_start(i: usize, width: usize) -> (r: usize)
    ensures
        r == spec_window_start(i, width),
        r <= i,
{
    if i >= width {
        i - width
    } else {
        0
    }
}

/// What the list is after the file at place `i` has changed places with the
/// file at the place that was drawn. Nothing changes where nothing was
/// drawn, or where one of the two places lies outside the list.
pub open spec fn exchanged(files: Seq<FileEntry>, i: usize, draw: Option<usize>) -> Seq<FileEntry> {
    match draw {
        Some(j) => if i < files.len() && j < files.len() {
            files.update(i as int, files[j as int]).update(j as int, files[i as int])
        } else {
            files
        },
        None => files,
    }
}

/// Carries out one draw of a shuffle: the file at place `i` changes places
/// with the file at the place drawn, if one was drawn. No file is lost and
/// none is added.
pub fn exchange(files: &mut Vec<FileEntry>, i: usize, draw: Option<usize>)
    ensures
        final(files)@ == exchanged(old(files)@, i, draw),
        final(files)@.to_multiset() == old(files)@.to_multiset(),
{
    match draw {
        Some(j) => {
            if i < files.len() && j < files.len() {
                proof {
                    lemma_swap_keeps_all(files@, i as int, j as int);
                }
                swap(files, i, j);
            }
        },
        None => {},
    }
}

/// Shuffles the list as far as `factor` says, in millionths: not at all at
/// zero, fully at one million. In between, each file from the last to the
/// second is, with a chance of `factor` in a million, exchanged with a file
/// picked at random among itself and the [`spec_reach`] files before it. No
/// file is lost and none is added.
pub fn randomize(files: &mut Vec<FileEntry>, factor: u32, rng: &mut SmallRng)
    requires
        factor <= 1_000_000,
    ensures
        final(files)@.to_multiset() == old(files)@.to_multiset(),
        factor == 0 ==> final(files)@ == old(files)@,
{
    if factor == 0 {
        return ;
    }
    if factor >= 1_000_000 {
        shuffle(files, rng);
        return ;
    }
    let width = reach(files.len(), factor);
    let mut i: usize = files.len();
    while i > 1
        invariant
            i <= files.len(),
            files@.len() == old(files)@.len(),
            files@.to_multiset() == old(files)@.to_multiset(),
            factor <= 1_000_000,
            width >= 1,
        decreases i,
    {
        i = i - 1;
        let draw = if chance(rng, factor, 1_000_000) {
            Some(pick(rng, window_start(i, width), i))
        } else {
            None
        };
        exchange(files, i, draw);
    }
}

/// The first `limit` files of the list; the whole list where it has no
/// more, or where no limit is set.
pub open spec fn cut(files: Seq<FileEntry>, limit: Option<usize>) -> Seq<FileEntry> {
    match limit {
        Some(n) => if n < files.len() {
            files.take(n as int)
        } else {
            files
        },
        None => files,
    }
}

/// Cuts the list off after `limit` files, where a limit is set.
pub fn limit(files: &mut Vec<FileEntry>, limit: Option<usize>)
    ensures
        final(files)@ == cut(old(files)@, limit),
{
    match limit {
        Some(n) => {
            files.truncate(n);
            assert(files@ =~= cut(old(files)@, limit));
        },
        None => {},
    }
}

} // verus!
