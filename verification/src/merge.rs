//! The template merge: the per-file reconciliation rule.
//!
//! The merge copies a template source tree into the generated project,
//! skipping files that are already up to date. The rule per file: copy when
//! the destination is missing, when metadata of either side could not be
//! read (fail-safe toward freshness, not toward preservation), or when the
//! source's byte length differs from the destination's or its last-modified
//! timestamp is strictly later; otherwise skip.

use vstd::prelude::*;

verus! {

/// The metadata the reconciliation rule reads of a file: its byte length and
/// its last-modified timestamp, as a monotone tick count (larger is later).
#[derive(Clone, Copy, Debug, PartialEq, Eq)]
pub struct FileMeta {
    /// Byte length of the file.
    pub len: u64,
    /// Last-modified timestamp, in ticks of the embedding program's choice.
    pub modified: u64,
}

/// What probing a destination path on disk revealed.
#[derive(Clone, Copy, Debug, PartialEq, Eq)]
pub enum FileProbe {
    /// The file does not exist.
    Absent,
    /// The file exists but its metadata could not be read.
    Unreadable,
    /// The file exists and carries the given metadata.
    Known(FileMeta),
}

/// One file under the template source tree, paired with what probing the
/// matching destination path revealed.
#[derive(Clone, Debug, PartialEq, Eq)]
pub struct MergeEntry {
    /// Path of the file, relative to the template source root.
    pub path: String,
    /// Source metadata; `None` when it could not be read.
    pub source: Option<FileMeta>,
    /// State of the matching destination file.
    pub dest: FileProbe,
}

/// The reconciliation decision for one file: whether the source must be
/// copied over the destination.
pub open spec fn needs_copy(source: Option<FileMeta>, dest: FileProbe) -> bool {
    match dest {
        FileProbe::Absent => true,
        FileProbe::Unreadable => true,
        FileProbe::Known(d) => match source {
            Option::None => true,
            Option::Some(s) => s.len != d.len || s.modified > d.modified,
        },
    }
}

/// Runtime counterpart of `needs_copy`.
pub fn should_copy(source: Option<FileMeta>, dest: FileProbe) -> (r: bool)
    ensures
        r == needs_copy(source, dest),
{
    match dest {
        FileProbe::Absent => true,
        FileProbe::Unreadable => true,
        FileProbe::Known(d) => match source {
            Option::None => true,
            Option::Some(s) => s.len != d.len || s.modified > d.modified,
        },
    }
}

/// Reconciliation is idempotent: where every destination already mirrors its
/// source — present, with the same metadata — no file is copied, so a second
/// merge pass over identical trees performs zero writes.
pub proof fn lemma_reconcile_idempotent(entries: Seq<MergeEntry>)
    requires
        forall|i: int|
            0 <= i < entries.len() ==> {
                &&& #[trigger] entries[i].source matches Some(m)
                &&& entries[i].dest == FileProbe::Known(m)
            },
    ensures
        forall|i: int| 0 <= i < entries.len() ==> !needs_copy(entries[i].source, entries[i].dest),
{
    assert forall|i: int| 0 <= i < entries.len() implies !needs_copy(
        entries[i].source,
        entries[i].dest,
    ) by {
        assert({
            &&& entries[i].source matches Some(m)
            &&& entries[i].dest == FileProbe::Known(m)
        });
    }
}

/// Once a copy has landed — the destination holds the source's byte length
/// and a timestamp no earlier than the source's — the file counts as up to
/// date, and a further pass skips it. With `lemma_reconcile_idempotent`,
/// this is why a merge pass leaves nothing for a second pass to write.
pub proof fn lemma_fresh_copy_is_skipped(source: FileMeta, dest: FileMeta)
    requires
        dest.len == source.len,
        dest.modified >= source.modified,
    ensures
        !needs_copy(Some(source), FileProbe::Known(dest)),
{
}

/// Reconciliation is monotone toward freshness: when the source and
/// destination byte lengths differ, the file is copied whatever the
/// timestamps say.
pub proof fn lemma_size_difference_forces_copy(source: FileMeta, dest: FileMeta)
    requires
        source.len != dest.len,
    ensures
        needs_copy(Some(source), FileProbe::Known(dest)),
{
}

} // verus!
