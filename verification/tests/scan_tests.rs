use line_endings::aggregate::report_decision;
use line_endings::classifier::LineEndingKind;
use line_endings::scan::classify_all;
use line_endings::scan::has_extension;
use line_endings::scan::Scanner;

fn bytes_of(text: &str) -> Vec<u8> {
    text.as_bytes().to_vec()
}

#[test]
fn extension_filter_accepts_matching_suffix() {
    assert!(has_extension(&bytes_of("a.cs"), &bytes_of("cs")));
    assert!(has_extension(&bytes_of("dir/sub/a.cs"), &bytes_of("cs")));
    assert!(has_extension(&bytes_of("archive.tar.cs"), &bytes_of("cs")));
}

#[test]
fn extension_filter_rejects_other_suffixes() {
    assert!(!has_extension(&bytes_of("a.rs"), &bytes_of("cs")));
    assert!(!has_extension(&bytes_of("a.c"), &bytes_of("cs")));
    assert!(!has_extension(&bytes_of("acs"), &bytes_of("cs")));
    assert!(!has_extension(&bytes_of("a.cs.txt"), &bytes_of("cs")));
    assert!(!has_extension(&bytes_of(""), &bytes_of("cs")));
}

#[test]
fn extension_filter_rejects_bare_dotted_names() {
    assert!(!has_extension(&bytes_of(".cs"), &bytes_of("cs")));
    assert!(!has_extension(&bytes_of("dir/.cs"), &bytes_of("cs")));
}

#[test]
fn worklist_is_popped_last_in_first_out() {
    let mut s = Scanner::new(vec![String::from("p1"), String::from("p2")]);
    assert_eq!(s.take_next(), Some(String::from("p2")));
    assert_eq!(s.take_next(), Some(String::from("p1")));
    assert_eq!(s.take_next(), None);
}

#[test]
fn entering_a_directory_pushes_its_children() {
    let mut s = Scanner::new(vec![String::from("root")]);
    assert_eq!(s.take_next(), Some(String::from("root")));
    s.enter_directory(vec![String::from("root/a"), String::from("root/b")]);
    assert_eq!(s.take_next(), Some(String::from("root/b")));
    assert_eq!(s.take_next(), Some(String::from("root/a")));
    assert_eq!(s.take_next(), None);
}

#[test]
fn unreadable_directory_contributes_nothing() {
    let mut s = Scanner::new(vec![String::from("root")]);
    assert_eq!(s.take_next(), Some(String::from("root")));
    s.enter_directory(Vec::new());
    assert_eq!(s.take_next(), None);
    assert_eq!(s.counters.files_checked, 0);
}

#[test]
fn recording_a_file_updates_counters_and_keeps_worklist() {
    let mut s = Scanner::new(vec![String::from("pending")]);
    let r = s.record_file(&bytes_of("x\r\ny \r\n"));
    assert_eq!(r.kind, LineEndingKind::CRLF);
    assert_eq!(r.defect_count, 1);
    assert_eq!(s.counters.crlf_count, 1);
    assert_eq!(s.counters.defect_file_count, 1);
    assert_eq!(s.counters.files_checked, 1);
    assert_eq!(s.take_next(), Some(String::from("pending")));
}

#[test]
fn one_file_of_each_kind_in_one_directory() {
    let files = vec![bytes_of("x\ny\n"), bytes_of("x\r\ny\r\n"), bytes_of("x\ny\r\n")];
    let c = classify_all(&files);
    assert_eq!(c.lf_count, 1);
    assert_eq!(c.crlf_count, 1);
    assert_eq!(c.mixed_count, 1);
    assert_eq!(c.files_checked, 3);
    assert_eq!(c.defect_file_count, 0);
}

#[test]
fn scan_is_idempotent_over_unchanged_contents() {
    let files = vec![bytes_of("x\n"), bytes_of("y\r\n"), bytes_of("z "), Vec::new()];
    let first = classify_all(&files);
    let second = classify_all(&files);
    assert_eq!(first, second);
}

#[test]
fn unterminated_file_gets_default_kind_and_notice() {
    let files = vec![bytes_of("hello")];
    let c = classify_all(&files);
    assert_eq!(c.crlf_count, 1);
    assert_eq!(c.files_checked, 1);
    assert_eq!(c.defect_file_count, 0);
    let mut s = Scanner::new(Vec::new());
    let r = s.record_file(&bytes_of("hello"));
    assert!(report_decision(&r, false, false, false).zero_defect_notice);
}

#[test]
fn defective_lf_file_is_counted_and_gets_no_notice() {
    let files = vec![bytes_of("a \n")];
    let c = classify_all(&files);
    assert_eq!(c.lf_count, 1);
    assert_eq!(c.defect_file_count, 1);
    let mut s = Scanner::new(Vec::new());
    let r = s.record_file(&bytes_of("a \n"));
    assert_eq!(r.kind, LineEndingKind::LF);
    assert_eq!(r.defect_count, 1);
    assert!(!report_decision(&r, false, false, false).zero_defect_notice);
}

#[test]
fn empty_run_leaves_all_counters_zero() {
    let c = classify_all(&Vec::new());
    assert_eq!(c.files_checked, 0);
    assert_eq!(c.lf_count + c.crlf_count + c.mixed_count, 0);
    assert_eq!(c.defect_file_count, 0);
}
