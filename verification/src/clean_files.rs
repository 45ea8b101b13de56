//! Rule-based cleaning of unwanted extracted files.
//!
//! The rules are mutually exclusive by file-name suffix, so their evaluation
//! order never changes the result.  The surrounding process walks the
//! directory tree and deletes; the decisions and the bookkeeping live here.
//! File names are byte strings, as the operating system reports them.

use vstd::prelude::*;
use crate::strutil::{bytes_end_with, is_suffix_of};
use crate::types::FileSummary;

verus! {

/// The size above which source maps and feed files are dropped: 25 MiB.
pub const SIZE_LIMIT_BYTES: u64 = 25 * 1024 * 1024;

pub open spec fn gz_suffix() -> Seq<u8> {
    seq!['.' as u8, 'g' as u8, 'z' as u8]
}

pub open spec fn map_suffix() -> Seq<u8> {
    seq!['.' as u8, 'm' as u8, 'a' as u8, 'p' as u8]
}

pub open spec fn atom_suffix() -> Seq<u8> {
    seq!['a' as u8, 't' as u8, 'o' as u8, 'm' as u8, '.' as u8, 'x' as u8, 'm' as u8, 'l' as u8]
}

/// True when the file is larger than the 25 MiB limit (strictly).
pub fn is_over_25mb(size: u64) -> (r: bool)
    ensures
        r == (size > SIZE_LIMIT_BYTES),
{
    size > SIZE_LIMIT_BYTES
}

/// Rule: any gzip-compressed duplicate is removed, whatever its size.
pub fn gz_rule_matches(name: &[u8]) -> (r: bool)
    ensures
        r == is_suffix_of(gz_suffix(), name@),
{
    let suffix: Vec<u8> = vec!['.' as u8, 'g' as u8, 'z' as u8];
    proof {
        assert(suffix@ =~= gz_suffix());
    }
    bytes_end_with(name, suffix.as_slice())
}

/// Rule: a source map over the size limit is removed.
pub fn large_source_map_rule_matches(name: &[u8], size: u64) -> (r: bool)
    ensures
        r == (is_suffix_of(map_suffix(), name@) && size > SIZE_LIMIT_BYTES),
{
    let suffix: Vec<u8> = vec!['.' as u8, 'm' as u8, 'a' as u8, 'p' as u8];
    proof {
        assert(suffix@ =~= map_suffix());
    }
    bytes_end_with(name, suffix.as_slice()) && is_over_25mb(size)
}

/// Rule: a feed file over the size limit is removed.
pub fn large_atom_rule_matches(name: &[u8], size: u64) -> (r: bool)
    ensures
        r == (is_suffix_of(atom_suffix(), name@) && size > SIZE_LIMIT_BYTES),
{
    let suffix: Vec<u8> = vec![
        'a' as u8,
        't' as u8,
        'o' as u8,
        'm' as u8,
        '.' as u8,
        'x' as u8,
        'm' as u8,
        'l' as u8,
    ];
    proof {
        assert(suffix@ =~= atom_suffix());
    }
    bytes_end_with(name, suffix.as_slice()) && is_over_25mb(size)
}

/// True when any cleaning rule asks for the file's removal.
pub open spec fn wants_removal(name: Seq<u8>, size: u64) -> bool {
    ||| is_suffix_of(gz_suffix(), name)
    ||| is_suffix_of(map_suffix(), name) && size > SIZE_LIMIT_BYTES
    ||| is_suffix_of(atom_suffix(), name) && size > SIZE_LIMIT_BYTES
}

/// Evaluate the whole rule set on one regular file.
pub fn should_remove(name: &[u8], size: u64) -> (r: bool)
    ensures
        r == wants_removal(name@, size),
{
    gz_rule_matches(name) || large_source_map_rule_matches(name, size)
        || large_atom_rule_matches(name, size)
}

/// One regular file seen by the walk: its name, its size, and whether a
/// removal of it succeeds.
pub struct CleanEntry {
    pub name: Vec<u8>,
    pub size: u64,
    pub remove_ok: bool,
}

pub open spec fn ignored_count(entries: Seq<CleanEntry>) -> int
    decreases entries.len(),
{
    if entries.len() == 0 {
        0
    } else {
        ignored_count(entries.drop_last()) + if !wants_removal(
            entries.last().name@,
            entries.last().size,
        ) {
            1int
        } else {
            0int
        }
    }
}

pub open spec fn removed_count(entries: Seq<CleanEntry>) -> int
    decreases entries.len(),
{
    if entries.len() == 0 {
        0
    } else {
        removed_count(entries.drop_last()) + if wants_removal(
            entries.last().name@,
            entries.last().size,
        ) && entries.last().remove_ok {
            1int
        } else {
            0int
        }
    }
}

pub open spec fn failed_count(entries: Seq<CleanEntry>) -> int
    decreases entries.len(),
{
    if entries.len() == 0 {
        0
    } else {
        failed_count(entries.drop_last()) + if wants_removal(
            entries.last().name@,
            entries.last().size,
        ) && !entries.last().remove_ok {
            1int
        } else {
            0int
        }
    }
}

/// Law: every file the walk sees is counted exactly once, so the three
/// counters always add up to the number of entries.
pub proof fn lemma_counts_partition(entries: Seq<CleanEntry>)
    ensures
        ignored_count(entries) + removed_count(entries) + failed_count(entries) == entries.len(),
        0 <= ignored_count(entries),
        0 <= removed_count(entries),
        0 <= failed_count(entries),
    decreases entries.len(),
{
    if entries.len() > 0 {
        lemma_counts_partition(entries.drop_last());
    }
}

/// Walk a list of regular files, apply the rule set to each, and count the
/// outcome: removed, failed to remove, or ignored.
pub fn clean_unused_files(entries: &Vec<CleanEntry>) -> (summary: FileSummary)
    requires
        entries@.len() <= i32::MAX,
    ensures
        summary.ignored == ignored_count(entries@),
        summary.removed_success == removed_count(entries@),
        summary.removed_fail == failed_count(entries@),
{
    let mut ignored: i32 = 0;
    let mut removed_success: i32 = 0;
    let mut removed_fail: i32 = 0;
    let n = entries.len();
    let mut i: usize = 0;
    while i < n
        invariant
            n == entries@.len() <= i32::MAX,
            i <= n,
            ignored == ignored_count(entries@.take(i as int)),
            removed_success == removed_count(entries@.take(i as int)),
            removed_fail == failed_count(entries@.take(i as int)),
        decreases n - i,
    {
        proof {
            lemma_counts_partition(entries@.take(i as int));
            assert(entries@.take(i + 1).drop_last() =~= entries@.take(i as int));
            assert(entries@.take(i + 1).last() == entries@[i as int]);
        }
        let entry = &entries[i];
        if should_remove(entry.name.as_slice(), entry.size) {
            if entry.remove_ok {
                removed_success += 1;
            } else {
                removed_fail += 1;
            }
        } else {
            ignored += 1;
        }
        i += 1;
    }
    proof {
        assert(entries@.take(n as int) =~= entries@);
    }
    FileSummary { ignored, removed_fail, removed_success }
}

} // verus!
