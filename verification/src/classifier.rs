//! The line-ending classifier: a pure, single-pass function from a file's
//! bytes to its dominant ending style and its count of defective lines.
//!
//! A file is read as a sequence of lines, where a line is every byte up to and
//! including the next line feed, or the remaining bytes if none follows. Each
//! terminated line is recorded as CRLF-style when its terminator is a carriage
//! return followed by a line feed, and as LF-style otherwise; an unterminated
//! final fragment contributes no record. A file with no LF-style record
//! classifies as CRLF (this covers the empty file and the file of CRLF lines
//! alone: the empty record set defaults to CRLF, a deliberate choice), a file
//! with LF-style records alone as LF, and a file with both as Mixed.
//!
//! A line is defective when its content, with the terminator stripped, ends in
//! a space or a horizontal tab; the unterminated final fragment is inspected
//! too.

use vstd::prelude::*;

verus! {

/// The line-feed byte, `\n`.
pub const LF_BYTE: u8 = 10;

/// The carriage-return byte, `\r`.
pub const CR_BYTE: u8 = 13;

/// The space byte.
pub const SPACE_BYTE: u8 = 32;

/// The horizontal-tab byte, `\t`.
pub const TAB_BYTE: u8 = 9;

/// The dominant ending style of one file. Equality-comparable only; the
/// variants have no order.
#[derive(PartialEq, Eq, Structural, Clone, Copy, Debug)]
pub enum LineEndingKind {
    LF,
    CRLF,
    Mixed,
}

/// What the classifier returns for one file: the aggregated ending style and
/// the number of lines with trailing whitespace before their terminator.
#[derive(PartialEq, Eq, Structural, Clone, Copy, Debug)]
pub struct ClassificationResult {
    pub kind: LineEndingKind,
    pub defect_count: usize,
}

/// Whether byte `b` is horizontal whitespace (space or tab).
pub open spec fn is_blank(b: u8) -> bool {
    b == SPACE_BYTE || b == TAB_BYTE
}

/// Whether position `i` of `s` holds a line feed.
pub open spec fn is_newline_at(s: Seq<u8>, i: int) -> bool {
    0 <= i < s.len() && s[i] == LF_BYTE
}

/// Whether the line terminated at position `i` is recorded as LF-style:
/// a line feed not preceded by a carriage return.
pub open spec fn lf_record_at(s: Seq<u8>, i: int) -> bool {
    is_newline_at(s, i) && !(i > 0 && s[i - 1] == CR_BYTE)
}

/// Whether the line terminated at position `i` is recorded as CRLF-style:
/// a line feed preceded by a carriage return.
pub open spec fn crlf_record_at(s: Seq<u8>, i: int) -> bool {
    is_newline_at(s, i) && i > 0 && s[i - 1] == CR_BYTE
}

/// Whether any of the first `n` positions of `s` carries an LF-style record.
pub open spec fn has_lf_record_upto(s: Seq<u8>, n: int) -> bool {
    exists|i: int| 0 <= i < n && lf_record_at(s, i)
}

/// Whether any of the first `n` positions of `s` carries a CRLF-style record.
pub open spec fn has_crlf_record_upto(s: Seq<u8>, n: int) -> bool {
    exists|i: int| 0 <= i < n && crlf_record_at(s, i)
}

/// Whether `s` carries an LF-style record anywhere.
pub open spec fn has_lf_record(s: Seq<u8>) -> bool {
    has_lf_record_upto(s, s.len() as int)
}

/// Whether `s` carries a CRLF-style record anywhere.
pub open spec fn has_crlf_record(s: Seq<u8>) -> bool {
    has_crlf_record_upto(s, s.len() as int)
}

/// The aggregated ending style of a file with bytes `s`: CRLF when no
/// LF-style record exists (so the empty record set defaults to CRLF), LF when
/// LF-style records exist and no CRLF-style record does, Mixed otherwise.
pub open spec fn ending_kind(s: Seq<u8>) -> LineEndingKind {
    if !has_lf_record(s) {
        LineEndingKind::CRLF
    } else if !has_crlf_record(s) {
        LineEndingKind::LF
    } else {
        LineEndingKind::Mixed
    }
}

/// The position where the terminator of the line ending at line feed `i`
/// starts: the carriage return before it, if there is one, else `i` itself.
pub open spec fn terminator_start(s: Seq<u8>, i: int) -> int {
    if i > 0 && s[i - 1] == CR_BYTE {
        i - 1
    } else {
        i
    }
}

/// Whether the line terminated at position `i` is defective: its content,
/// with the terminator stripped, ends in a space or tab.
pub open spec fn defect_at(s: Seq<u8>, i: int) -> bool {
    is_newline_at(s, i) && {
        let j = terminator_start(s, i);
        j > 0 && is_blank(s[j - 1])
    }
}

/// The number of defective terminated lines among the first `n` positions.
pub open spec fn defects_upto(s: Seq<u8>, n: int) -> nat
    decreases n,
{
    if n <= 0 {
        0
    } else {
        defects_upto(s, n - 1) + (if defect_at(s, n - 1) {
            1nat
        } else {
            0nat
        })
    }
}

/// Whether the unterminated final fragment of `s` is defective: the file is
/// nonempty and its last byte is a space or tab (a last byte of space or tab
/// means the file does not end in a line feed, so a fragment exists).
pub open spec fn tail_fragment_defect(s: Seq<u8>) -> bool {
    s.len() > 0 && is_blank(s[s.len() - 1])
}

/// The total defect count of a file with bytes `s`: defective terminated
/// lines plus the unterminated final fragment if that is defective.
pub open spec fn defect_total(s: Seq<u8>) -> nat {
    defects_upto(s, s.len() as int) + (if tail_fragment_defect(s) {
        1nat
    } else {
        0nat
    })
}

/// There are at most `n` defective lines among the first `n` positions.
proof fn lemma_defects_upto_le(s: Seq<u8>, n: int)
    requires
        0 <= n,
    ensures
        defects_upto(s, n) <= n,
    decreases n,
{
    if n > 0 {
        lemma_defects_upto_le(s, n - 1);
    }
}

/// The defect count over a prefix never shrinks as the prefix grows.
proof fn lemma_defects_upto_monotonic(s: Seq<u8>, m: int, n: int)
    requires
        0 <= m <= n,
    ensures
        defects_upto(s, m) <= defects_upto(s, n),
    decreases n,
{
    if m < n {
        lemma_defects_upto_monotonic(s, m, n - 1);
    }
}

/// Law: a nonempty file that ends in a line feed and contains no carriage
/// return anywhere — a file composed entirely of LF-terminated lines —
/// classifies as LF.
pub proof fn lemma_all_lf_lines_classify_lf(s: Seq<u8>)
    requires
        s.len() > 0,
        s[s.len() - 1] == LF_BYTE,
        forall|i: int| 0 <= i < s.len() ==> s[i] != CR_BYTE,
    ensures
        ending_kind(s) == LineEndingKind::LF,
{
    assert(lf_record_at(s, s.len() - 1));
    assert(!has_crlf_record(s)) by {
        if has_crlf_record(s) {
            let i = choose|i: int| 0 <= i < s.len() && crlf_record_at(s, i);
            assert(s[i - 1] == CR_BYTE);
        }
    }
}

/// Law: a file composed entirely of CRLF-terminated lines — nonempty, ending
/// in a line feed, with every line feed preceded by a carriage return —
/// classifies as CRLF.
pub proof fn lemma_all_crlf_lines_classify_crlf(s: Seq<u8>)
    requires
        s.len() > 0,
        s[s.len() - 1] == LF_BYTE,
        forall|i: int| 0 <= i < s.len() && #[trigger] s[i] == LF_BYTE ==> i > 0 && s[i - 1]
            == CR_BYTE,
    ensures
        ending_kind(s) == LineEndingKind::CRLF,
{
    assert(!has_lf_record(s)) by {
        if has_lf_record(s) {
            let i = choose|i: int| 0 <= i < s.len() && lf_record_at(s, i);
            assert(s[i] == LF_BYTE);
        }
    }
}

/// Law: a file with at least one CRLF-terminated line and at least one line
/// terminated by a bare line feed classifies as Mixed.
pub proof fn lemma_both_records_classify_mixed(s: Seq<u8>, i: int, j: int)
    requires
        crlf_record_at(s, i),
        lf_record_at(s, j),
    ensures
        ending_kind(s) == LineEndingKind::Mixed,
{
    assert(has_crlf_record(s));
    assert(has_lf_record(s));
}

/// Law: the empty file classifies as CRLF — the empty record set defaults to
/// CRLF — and has no defects.
pub proof fn lemma_empty_file(s: Seq<u8>)
    requires
        s.len() == 0,
    ensures
        ending_kind(s) == LineEndingKind::CRLF,
        defect_total(s) == 0,
{
}

/// Law: a file with a defective line — trailing horizontal whitespace before
/// the terminator at some position — has a defect count of at least one.
pub proof fn lemma_defective_line_counts(s: Seq<u8>, i: int)
    requires
        defect_at(s, i),
    ensures
        defect_total(s) >= 1,
{
    assert(defects_upto(s, i + 1) >= 1);
    lemma_defects_upto_monotonic(s, i + 1, s.len() as int);
}

/// Classify one file, given its full contents as bytes: a single forward
/// pass, no backtracking, no side effects.
pub fn classify(bytes: &Vec<u8>) -> (r: ClassificationResult)
    ensures
        r.kind == ending_kind(bytes@),
        r.defect_count == defect_total(bytes@),
{
    let n: usize = bytes.len();
    let mut i: usize = 0;
    let mut saw_lf: bool = false;
    let mut saw_crlf: bool = false;
    let mut defects: usize = 0;
    while i < n
        invariant
            n == bytes@.len(),
            i <= n,
            saw_lf == has_lf_record_upto(bytes@, i as int),
            saw_crlf == has_crlf_record_upto(bytes@, i as int),
            defects == defects_upto(bytes@, i as int),
        decreases n - i,
    {
        proof {
            lemma_defects_upto_le(bytes@, i as int);
        }
        if bytes[i] == LF_BYTE {
            let j: usize = if i > 0 && bytes[i - 1] == CR_BYTE {
                saw_crlf = true;
                i - 1
            } else {
                saw_lf = true;
                i
            };
            if j > 0 && (bytes[j - 1] == SPACE_BYTE || bytes[j - 1] == TAB_BYTE) {
                defects = defects + 1;
            }
        }
        proof {
            let s = bytes@;
            let k = i as int;
            assert(has_lf_record_upto(s, k + 1) == (has_lf_record_upto(s, k) || lf_record_at(
                s,
                k,
            )));
            assert(has_crlf_record_upto(s, k + 1) == (has_crlf_record_upto(s, k) || crlf_record_at(
                s,
                k,
            )));
        }
        i = i + 1;
    }
    let mut total: usize = defects;
    if n > 0 && (bytes[n - 1] == SPACE_BYTE || bytes[n - 1] == TAB_BYTE) {
        proof {
            let s = bytes@;
            assert(!defect_at(s, s.len() - 1));
            lemma_defects_upto_le(s, s.len() - 1);
        }
        total = total + 1;
    }
    let kind = if !saw_lf {
        LineEndingKind::CRLF
    } else if !saw_crlf {
        LineEndingKind::LF
    } else {
        LineEndingKind::Mixed
    };
    ClassificationResult { kind, defect_count: total }
}

} // verus!
