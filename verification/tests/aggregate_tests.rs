use line_endings::aggregate::AggregateCounters;
use line_endings::aggregate::report_decision;
use line_endings::classifier::ClassificationResult;
use line_endings::classifier::LineEndingKind;

#[test]
fn new_counters_are_zero() {
    let c = AggregateCounters::new();
    assert_eq!(c.lf_count, 0);
    assert_eq!(c.crlf_count, 0);
    assert_eq!(c.mixed_count, 0);
    assert_eq!(c.defect_file_count, 0);
    assert_eq!(c.files_checked, 0);
}

#[test]
fn record_sorts_each_kind_into_its_counter() {
    let mut c = AggregateCounters::new();
    c.record(&ClassificationResult { kind: LineEndingKind::LF, defect_count: 0 });
    c.record(&ClassificationResult { kind: LineEndingKind::CRLF, defect_count: 0 });
    c.record(&ClassificationResult { kind: LineEndingKind::CRLF, defect_count: 0 });
    c.record(&ClassificationResult { kind: LineEndingKind::Mixed, defect_count: 0 });
    assert_eq!(c.lf_count, 1);
    assert_eq!(c.crlf_count, 2);
    assert_eq!(c.mixed_count, 1);
    assert_eq!(c.defect_file_count, 0);
    assert_eq!(c.files_checked, 4);
}

#[test]
fn files_checked_equals_sum_of_kind_counters() {
    let mut c = AggregateCounters::new();
    c.record(&ClassificationResult { kind: LineEndingKind::LF, defect_count: 3 });
    c.record(&ClassificationResult { kind: LineEndingKind::Mixed, defect_count: 0 });
    c.record(&ClassificationResult { kind: LineEndingKind::LF, defect_count: 0 });
    assert_eq!(c.files_checked, c.lf_count + c.crlf_count + c.mixed_count);
}

#[test]
fn defective_file_counted_once_regardless_of_defect_count() {
    let mut c = AggregateCounters::new();
    c.record(&ClassificationResult { kind: LineEndingKind::LF, defect_count: 5 });
    assert_eq!(c.defect_file_count, 1);
    assert_eq!(c.files_checked, 1);
}

#[test]
fn zero_defect_notice_exactly_for_clean_files() {
    let clean = ClassificationResult { kind: LineEndingKind::LF, defect_count: 0 };
    let dirty = ClassificationResult { kind: LineEndingKind::LF, defect_count: 1 };
    assert!(report_decision(&clean, false, false, false).zero_defect_notice);
    assert!(!report_decision(&dirty, true, true, true).zero_defect_notice);
}

#[test]
fn kind_listing_follows_the_matching_flag() {
    let lf = ClassificationResult { kind: LineEndingKind::LF, defect_count: 0 };
    let crlf = ClassificationResult { kind: LineEndingKind::CRLF, defect_count: 0 };
    let mixed = ClassificationResult { kind: LineEndingKind::Mixed, defect_count: 0 };
    assert!(report_decision(&lf, true, false, false).kind_listing);
    assert!(!report_decision(&lf, false, true, true).kind_listing);
    assert!(report_decision(&crlf, false, true, false).kind_listing);
    assert!(!report_decision(&crlf, true, false, true).kind_listing);
    assert!(report_decision(&mixed, false, false, true).kind_listing);
    assert!(!report_decision(&mixed, true, true, false).kind_listing);
}
