//! The scan loop's state: a work-list of pending paths used as a stack, the
//! aggregate counters, and the decisions the loop takes.
//!
//! The walker's filesystem steps — asking whether a path is a file or a
//! directory, listing a directory, reading a file — are performed by the
//! caller, which hands the outcome back as plain values: the children of a
//! directory extend the work-list, and the bytes of a matching file are
//! classified and folded into the counters. The whole per-run aggregation is
//! also available as a pure function over a sequence of file contents, which
//! pins the counters as a function of the contents alone.

use vstd::prelude::*;

use crate::aggregate::AggregateCounters;
use crate::classifier::ClassificationResult;
use crate::classifier::LineEndingKind;
use crate::classifier::classify;
use crate::classifier::defect_total;
use crate::classifier::ending_kind;

verus! {

/// The dot byte, `.`.
pub const DOT_BYTE: u8 = 46;

/// The path-separator byte, `/`.
pub const SLASH_BYTE: u8 = 47;

/// Whether `path` names a file with extension `ext`: it ends in a dot
/// followed by `ext`, and the dot neither starts the path nor immediately
/// follows a separator (a name that is nothing but a dotted extension has no
/// extension).
pub open spec fn extension_matches(path: Seq<u8>, ext: Seq<u8>) -> bool {
    let dot = path.len() - ext.len() - 1;
    &&& path.len() > ext.len() + 1
    &&& dot > 0
    &&& path[dot] == DOT_BYTE
    &&& path[dot - 1] != SLASH_BYTE
    &&& path.subrange(path.len() - ext.len(), path.len() as int) == ext
}

/// The extension filter: decide whether `path` ends in `.` followed by
/// exactly the bytes of `ext`, with a nonempty stem before the dot.
pub fn has_extension(path: &Vec<u8>, ext: &Vec<u8>) -> (r: bool)
    ensures
        r == extension_matches(path@, ext@),
{
    let plen: usize = path.len();
    let elen: usize = ext.len();
    if plen <= elen || plen - elen < 2 {
        return false;
    }
    let dot: usize = plen - elen - 1;
    if dot == 0 || path[dot] != DOT_BYTE || path[dot - 1] == SLASH_BYTE {
        return false;
    }
    let mut k: usize = 0;
    while k < elen
        invariant
            plen == path@.len(),
            elen == ext@.len(),
            dot == plen - elen - 1,
            0 < dot,
            k <= elen,
            forall|m: int| 0 <= m < k ==> path@[dot + 1 + m] == ext@[m],
        decreases elen - k,
    {
        if path[dot + 1 + k] != ext[k] {
            assert(path@.subrange(plen - elen, plen as int)[k as int] != ext@[k as int]);
            return false;
        }
        k = k + 1;
    }
    proof {
        assert(path@.subrange(plen - elen, plen as int) =~= ext@);
    }
    true
}

/// The scan state: the work-list of paths still to visit, used as a stack,
/// and the counters accumulated so far.
pub struct Scanner {
    pub worklist: Vec<String>,
    pub counters: AggregateCounters,
}

impl Scanner {
    /// The scanner is well-formed when its counters are.
    pub open spec fn well_formed(self) -> bool {
        self.counters.well_formed()
    }

    /// A fresh scan over the given initial paths, with all counters zero.
    pub fn new(initial: Vec<String>) -> (s: Scanner)
        ensures
            s.worklist@ == initial@,
            s.counters == AggregateCounters::zero(),
            s.well_formed(),
    {
        Scanner { worklist: initial, counters: AggregateCounters::new() }
    }

    /// Take the next pending path off the work-list, last in first out.
    /// Returns `None` exactly when the work-list is empty — the scan's
    /// termination condition. The counters do not change.
    pub fn take_next(&mut self) -> (r: Option<String>)
        ensures
            final(self).counters == old(self).counters,
            old(self).worklist@.len() == 0 ==> r is None && final(self).worklist@ == old(self).worklist@,
            old(self).worklist@.len() > 0 ==> r == Some(old(self).worklist@.last())
                && final(self).worklist@ == old(self).worklist@.drop_last(),
    {
        self.worklist.pop()
    }

    /// A path taken off the work-list turned out to be a directory and was
    /// listed by the caller: push its children, leaving the counters alone.
    /// A directory the caller failed to list contributes an empty `children`,
    /// so its subtree is skipped and the scan goes on.
    pub fn enter_directory(&mut self, children: Vec<String>)
        ensures
            final(self).counters == old(self).counters,
            final(self).worklist@ == old(self).worklist@ + children@,
    {
        let mut pending = children;
        self.worklist.append(&mut pending);
    }

    /// A path taken off the work-list turned out to be a regular file that
    /// passes the extension filter, and the caller read its bytes: classify
    /// them and fold the result into the counters. The work-list is left
    /// alone, and the returned result is exactly the file's classification.
    pub fn record_file(&mut self, bytes: &Vec<u8>) -> (r: ClassificationResult)
        requires
            old(self).well_formed(),
            old(self).counters.files_checked < u64::MAX,
        ensures
            final(self).well_formed(),
            final(self).worklist@ == old(self).worklist@,
            r.kind == ending_kind(bytes@),
            r.defect_count == defect_total(bytes@),
            final(self).counters.files_checked == old(self).counters.files_checked + 1,
            final(self).counters.lf_count == old(self).counters.lf_count + (if ending_kind(bytes@)
                == LineEndingKind::LF {
                1int
            } else {
                0int
            }),
            final(self).counters.crlf_count == old(self).counters.crlf_count + (if ending_kind(
                bytes@,
            ) == LineEndingKind::CRLF {
                1int
            } else {
                0int
            }),
            final(self).counters.mixed_count == old(self).counters.mixed_count + (if ending_kind(
                bytes@,
            ) == LineEndingKind::Mixed {
                1int
            } else {
                0int
            }),
            final(self).counters.defect_file_count == old(self).counters.defect_file_count + (
            if defect_total(bytes@) > 0 {
                1int
            } else {
                0int
            }),
    {
        let r = classify(bytes);
        self.counters.record(&r);
        r
    }
}

/// What one run contributes to each counter, at the specification level:
/// unbounded naturals, one field per counter.
pub ghost struct RunTally {
    pub lf: nat,
    pub crlf: nat,
    pub mixed: nat,
    pub defect_files: nat,
    pub checked: nat,
}

/// The tally of a single file with bytes `s`.
pub open spec fn file_tally(s: Seq<u8>) -> RunTally {
    RunTally {
        lf: if ending_kind(s) == LineEndingKind::LF {
            1nat
        } else {
            0nat
        },
        crlf: if ending_kind(s) == LineEndingKind::CRLF {
            1nat
        } else {
            0nat
        },
        mixed: if ending_kind(s) == LineEndingKind::Mixed {
            1nat
        } else {
            0nat
        },
        defect_files: if defect_total(s) > 0 {
            1nat
        } else {
            0nat
        },
        checked: 1nat,
    }
}

/// Tallies add field by field.
pub open spec fn tally_add(a: RunTally, b: RunTally) -> RunTally {
    RunTally {
        lf: a.lf + b.lf,
        crlf: a.crlf + b.crlf,
        mixed: a.mixed + b.mixed,
        defect_files: a.defect_files + b.defect_files,
        checked: a.checked + b.checked,
    }
}

/// The tally of a whole run over the given sequence of file contents: the
/// sum of the per-file tallies. This is a function of the contents alone.
pub open spec fn run_tally(files: Seq<Seq<u8>>) -> RunTally
    decreases files.len(),
{
    if files.len() == 0 {
        RunTally { lf: 0, crlf: 0, mixed: 0, defect_files: 0, checked: 0 }
    } else {
        tally_add(run_tally(files.drop_last()), file_tally(files.last()))
    }
}

/// The views of a sequence of byte vectors.
pub open spec fn contents_of(files: Seq<Vec<u8>>) -> Seq<Seq<u8>> {
    files.map_values(|f: Vec<u8>| f@)
}

/// Classify every file of a run and aggregate the results, as a pure
/// function from the files' contents to the final counters: each counter
/// equals the matching field of the run's tally.
pub fn classify_all(files: &Vec<Vec<u8>>) -> (c: AggregateCounters)
    ensures
        c.well_formed(),
        c.lf_count == run_tally(contents_of(files@)).lf,
        c.crlf_count == run_tally(contents_of(files@)).crlf,
        c.mixed_count == run_tally(contents_of(files@)).mixed,
        c.defect_file_count == run_tally(contents_of(files@)).defect_files,
        c.files_checked == run_tally(contents_of(files@)).checked,
{
    let ghost all = contents_of(files@);
    let n: usize = files.len();
    let mut c = AggregateCounters::new();
    let mut i: usize = 0;
    while i < n
        invariant
            n == files@.len(),
            i <= n,
            all == contents_of(files@),
            c.well_formed(),
            c.lf_count == run_tally(all.subrange(0, i as int)).lf,
            c.crlf_count == run_tally(all.subrange(0, i as int)).crlf,
            c.mixed_count == run_tally(all.subrange(0, i as int)).mixed,
            c.defect_file_count == run_tally(all.subrange(0, i as int)).defect_files,
            c.files_checked == run_tally(all.subrange(0, i as int)).checked,
        decreases n - i,
    {
        proof {
            lemma_run_tally_checked_is_len(all.subrange(0, i as int));
        }
        let r = classify(&files[i]);
        c.record(&r);
        proof {
            assert(all.subrange(0, i + 1).drop_last() =~= all.subrange(0, i as int));
            assert(all.subrange(0, i + 1).last() == files@[i as int]@);
        }
        i = i + 1;
    }
    proof {
        assert(all.subrange(0, n as int) =~= all);
    }
    c
}

/// A run of `n` files is checked `n` times: the checked field of a run's
/// tally equals the number of files.
proof fn lemma_run_tally_checked_is_len(files: Seq<Seq<u8>>)
    ensures
        run_tally(files).checked == files.len(),
    decreases files.len(),
{
    if files.len() > 0 {
        lemma_run_tally_checked_is_len(files.drop_last());
    }
}

/// Law: in any run's tally, the number of files checked equals the sum of
/// the three kind counts — every classified file lands in exactly one kind.
pub proof fn lemma_run_checked_is_sum(files: Seq<Seq<u8>>)
    ensures
        run_tally(files).checked == run_tally(files).lf + run_tally(files).crlf + run_tally(
            files,
        ).mixed,
    decreases files.len(),
{
    if files.len() > 0 {
        lemma_run_checked_is_sum(files.drop_last());
    }
}

/// Law: the scan is idempotent. The counters of a run are a function of the
/// files' contents alone, so two runs over the same unchanged contents — as
/// `classify_all` guarantees of its result — produce identical counters.
pub proof fn lemma_scan_idempotent(
    files: Seq<Seq<u8>>,
    first: AggregateCounters,
    second: AggregateCounters,
)
    requires
        first.lf_count == run_tally(files).lf,
        first.crlf_count == run_tally(files).crlf,
        first.mixed_count == run_tally(files).mixed,
        first.defect_file_count == run_tally(files).defect_files,
        first.files_checked == run_tally(files).checked,
        second.lf_count == run_tally(files).lf,
        second.crlf_count == run_tally(files).crlf,
        second.mixed_count == run_tally(files).mixed,
        second.defect_file_count == run_tally(files).defect_files,
        second.files_checked == run_tally(files).checked,
    ensures
        first == second,
{
}

} // verus!
