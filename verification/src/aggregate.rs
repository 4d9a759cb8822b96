//! Aggregate counters and the per-file reporting decision.
//!
//! Each successfully classified file increments exactly one of the three
//! kind counters, always increments the number of files checked, and
//! increments the defective-file counter exactly when its defect count is
//! positive. The number of files checked therefore always equals the sum of
//! the three kind counters.

use vstd::prelude::*;

use crate::classifier::ClassificationResult;
use crate::classifier::LineEndingKind;

verus! {

/// The five aggregate counters of one run, updated once per classified file
/// and read out at the end.
#[derive(PartialEq, Eq, Structural, Clone, Copy, Debug)]
pub struct AggregateCounters {
    pub lf_count: u64,
    pub crlf_count: u64,
    pub mixed_count: u64,
    pub defect_file_count: u64,
    pub files_checked: u64,
}

impl AggregateCounters {
    /// The counters' invariant: every file checked went to exactly one kind
    /// counter, and at most one defective file per file checked was recorded.
    pub open spec fn well_formed(self) -> bool {
        &&& self.files_checked == self.lf_count + self.crlf_count + self.mixed_count
        &&& self.defect_file_count <= self.files_checked
    }

    /// The all-zero counters, as a specification value.
    pub open spec fn zero() -> AggregateCounters {
        AggregateCounters {
            lf_count: 0,
            crlf_count: 0,
            mixed_count: 0,
            defect_file_count: 0,
            files_checked: 0,
        }
    }

    /// Fresh counters, all zero.
    pub fn new() -> (c: AggregateCounters)
        ensures
            c == AggregateCounters::zero(),
            c.lf_count == 0,
            c.crlf_count == 0,
            c.mixed_count == 0,
            c.defect_file_count == 0,
            c.files_checked == 0,
            c.well_formed(),
    {
        AggregateCounters {
            lf_count: 0,
            crlf_count: 0,
            mixed_count: 0,
            defect_file_count: 0,
            files_checked: 0,
        }
    }

    /// Fold one file's classification into the counters: the matching kind
    /// counter and the number of files checked go up by one, the
    /// defective-file counter goes up exactly when the file had a defect, and
    /// nothing else changes.
    pub fn record(&mut self, result: &ClassificationResult)
        requires
            old(self).well_formed(),
            old(self).files_checked < u64::MAX,
        ensures
            final(self).well_formed(),
            final(self).files_checked == old(self).files_checked + 1,
            final(self).lf_count == old(self).lf_count + (if result.kind == LineEndingKind::LF {
                1int
            } else {
                0int
            }),
            final(self).crlf_count == old(self).crlf_count + (if result.kind
                == LineEndingKind::CRLF {
                1int
            } else {
                0int
            }),
            final(self).mixed_count == old(self).mixed_count + (if result.kind
                == LineEndingKind::Mixed {
                1int
            } else {
                0int
            }),
            final(self).defect_file_count == old(self).defect_file_count + (if result.defect_count
                > 0 {
                1int
            } else {
                0int
            }),
    {
        match result.kind {
            LineEndingKind::LF => {
                self.lf_count = self.lf_count + 1;
            },
            LineEndingKind::CRLF => {
                self.crlf_count = self.crlf_count + 1;
            },
            LineEndingKind::Mixed => {
                self.mixed_count = self.mixed_count + 1;
            },
        }
        if result.defect_count > 0 {
            self.defect_file_count = self.defect_file_count + 1;
        }
        self.files_checked = self.files_checked + 1;
    }
}

/// Law: for well-formed counters the number of files checked equals the sum
/// of the three kind counters; `new` establishes well-formedness and `record`
/// preserves it, so this holds at every point of every run.
pub proof fn lemma_checked_is_sum(c: AggregateCounters)
    requires
        c.well_formed(),
    ensures
        c.files_checked == c.lf_count + c.crlf_count + c.mixed_count,
{
}

/// What to print for one classified file: the unconditional zero-defect
/// notice, and the per-kind listing line when the matching flag is set.
#[derive(PartialEq, Eq, Structural, Clone, Copy, Debug)]
pub struct ReportChoice {
    pub zero_defect_notice: bool,
    pub kind_listing: bool,
}

/// Decide the per-file output. The zero-defect notice is emitted exactly for
/// files whose defect count is zero, independent of any flag; the kind
/// listing is emitted exactly when the flag of the file's kind is set.
pub fn report_decision(
    result: &ClassificationResult,
    print_lf: bool,
    print_crlf: bool,
    print_mixed: bool,
) -> (r: ReportChoice)
    ensures
        r.zero_defect_notice == (result.defect_count == 0),
        r.kind_listing == (match result.kind {
            LineEndingKind::LF => print_lf,
            LineEndingKind::CRLF => print_crlf,
            LineEndingKind::Mixed => print_mixed,
        }),
{
    let kind_listing = match result.kind {
        LineEndingKind::LF => print_lf,
        LineEndingKind::CRLF => print_crlf,
        LineEndingKind::Mixed => print_mixed,
    };
    ReportChoice { zero_defect_notice: result.defect_count == 0, kind_listing }
}

} // verus!
