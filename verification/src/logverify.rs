use vstd::prelude::*;
use vstd::slice::slice_subrange;
use crate::sign::{hex_bytes_of, hmac_sha256, signature_matches, signature_spec, verify_signature};
use crate::record::signed_row_spec;

verus! {

/// ASCII whitespace, the bytes that `trim` removes from the rows this
/// tool writes.
pub open spec fn is_space(b: u8) -> bool {
    b == 0x20 || 0x09 <= b <= 0x0d
}

/// A line is blank when it holds nothing but whitespace; blank lines are
/// skipped without affecting any count.
pub open spec fn is_blank(line: Seq<u8>) -> bool {
    forall|i: int| 0 <= i < line.len() ==> is_space(#[trigger] line[i])
}

/// The index of the last comma in `line`, or -1 when it has none.  The
/// signature is always the final field, and only the content before it
/// may itself contain commas, so a log line is split at this index.
pub open spec fn last_comma(line: Seq<u8>) -> int
    decreases line.len(),
{
    if line.len() == 0 {
        -1
    } else if line.last() == 0x2c {
        line.len() - 1
    } else {
        last_comma(line.drop_last())
    }
}

/// The verdict on one non-blank data line: it carries the exact signature
/// owed to its content, it carries a different one, or it has no comma at
/// all and cannot be split.
#[derive(Clone, Copy, PartialEq, Eq, Structural, Debug)]
pub enum LineVerdict {
    Valid,
    Tampered,
    FormatError,
}

/// Classify one non-blank data line: split at the last comma and compare
/// the claimed signature with the one recomputed from the content.
pub open spec fn line_verdict(key: Seq<u8>, line: Seq<u8>) -> LineVerdict {
    let c = last_comma(line);
    if c < 0 {
        LineVerdict::FormatError
    } else if signature_matches(key, line.subrange(0, c), line.subrange(c + 1, line.len() as int)) {
        LineVerdict::Valid
    } else {
        LineVerdict::Tampered
    }
}

/// How many of the rows are checked at all (the non-blank ones).
pub open spec fn checked_count(rows: Seq<Seq<u8>>) -> nat
    decreases rows.len(),
{
    if rows.len() == 0 {
        0
    } else {
        checked_count(rows.drop_last()) + (if is_blank(rows.last()) {
            0nat
        } else {
            1nat
        })
    }
}

/// How many of the rows are non-blank and carry their exact signature.
pub open spec fn valid_count(key: Seq<u8>, rows: Seq<Seq<u8>>) -> nat
    decreases rows.len(),
{
    if rows.len() == 0 {
        0
    } else {
        valid_count(key, rows.drop_last()) + (if !is_blank(rows.last()) && line_verdict(
            key,
            rows.last(),
        ) == LineVerdict::Valid {
            1nat
        } else {
            0nat
        })
    }
}

/// How many of the rows are non-blank and either tampered or malformed.
pub open spec fn error_count(key: Seq<u8>, rows: Seq<Seq<u8>>) -> nat
    decreases rows.len(),
{
    if rows.len() == 0 {
        0
    } else {
        error_count(key, rows.drop_last()) + (if !is_blank(rows.last()) && line_verdict(
            key,
            rows.last(),
        ) != LineVerdict::Valid {
            1nat
        } else {
            0nat
        })
    }
}

/// The data rows of a log file: every line after the header, which is
/// always skipped.
pub open spec fn data_rows(lines: Seq<Seq<u8>>) -> Seq<Seq<u8>> {
    if lines.len() == 0 {
        lines
    } else {
        lines.drop_first()
    }
}

/// The verification summary: rows checked, rows whose signature matched,
/// and rows that were tampered with or malformed.  The log is verified
/// if and only if no error was found.
#[derive(Clone, Copy, PartialEq, Eq, Structural, Debug)]
pub struct VerifyReport {
    pub checked: usize,
    pub valid: usize,
    pub errors: usize,
}

impl VerifyReport {
    /// Whether the whole log is intact: true exactly when the error
    /// count is zero.
    pub fn verified(&self) -> (b: bool)
        ensures
            b == (self.errors == 0),
    {
        self.errors == 0
    }
}

/// Whether `line` holds only whitespace.
pub fn line_is_blank(line: &[u8]) -> (b: bool)
    ensures
        b == is_blank(line@),
{
    let mut i: usize = 0;
    while i < line.len()
        invariant
            i <= line@.len(),
            forall|j: int| 0 <= j < i ==> is_space(#[trigger] line@[j]),
        decreases line@.len() - i,
    {
        let b = line[i];
        if !(b == 0x20 || (0x09 <= b && b <= 0x0d)) {
            assert(!is_space(line@[i as int]));
            return false;
        }
        i = i + 1;
    }
    true
}

/// Find the index of the last comma in `line`, if it has one.
pub fn find_last_comma(line: &[u8]) -> (r: Option<usize>)
    ensures
        match r {
            Some(c) => c as int == last_comma(line@) && c < line@.len(),
            None => last_comma(line@) == -1,
        },
{
    proof {
        assert(line@.subrange(0, line@.len() as int) =~= line@);
    }
    let mut j: usize = line.len();
    while j > 0
        invariant
            j <= line@.len(),
            last_comma(line@) == last_comma(line@.subrange(0, j as int)),
        decreases j,
    {
        if line[j - 1] == 0x2c {
            proof {
                assert(line@.subrange(0, j as int).last() == line@[j - 1]);
            }
            return Some(j - 1);
        }
        proof {
            assert(line@.subrange(0, j as int).drop_last() =~= line@.subrange(0, j - 1));
        }
        j = j - 1;
    }
    proof {
        assert(line@.subrange(0, 0) =~= Seq::<u8>::empty());
    }
    None
}

/// Scan a log file, given as its lines in order, and re-check every data
/// row's signature under `key`: line 0 is the header and always skipped,
/// blank lines are skipped without affecting the counts, and every other
/// line is split at its last comma and its signature recomputed and
/// compared exactly.
pub fn verify_log(lines: &Vec<Vec<u8>>, key: &[u8]) -> (report: VerifyReport)
    ensures
        report.checked == checked_count(data_rows(lines.deep_view())),
        report.valid == valid_count(key@, data_rows(lines.deep_view())),
        report.errors == error_count(key@, data_rows(lines.deep_view())),
{
    let ghost rows = data_rows(lines.deep_view());
    let mut checked: usize = 0;
    let mut valid: usize = 0;
    let mut errors: usize = 0;
    if lines.len() == 0 {
        return VerifyReport { checked, valid, errors };
    }
    let mut i: usize = 1;
    while i < lines.len()
        invariant
            1 <= i <= lines@.len(),
            rows == data_rows(lines.deep_view()),
            rows.len() == lines@.len() - 1,
            checked == checked_count(rows.subrange(0, i - 1)),
            valid == valid_count(key@, rows.subrange(0, i - 1)),
            errors == error_count(key@, rows.subrange(0, i - 1)),
            valid + errors == checked,
            checked <= i - 1,
        decreases lines@.len() - i,
    {
        let line: &Vec<u8> = &lines[i];
        let ghost prev = rows.subrange(0, i - 1);
        let ghost cur = rows.subrange(0, i as int);
        proof {
            assert(cur.drop_last() =~= prev);
            assert(cur.last() == lines.deep_view()[i as int]);
            assert(line@ == cur.last());
        }
        if !line_is_blank(line.as_slice()) {
            checked = checked + 1;
            let n = line.len();
            match find_last_comma(line.as_slice()) {
                Some(c) => {
                    proof {
                        assert(c < n);
                    }
                    let content = slice_subrange(line.as_slice(), 0, c);
                    let sig = slice_subrange(line.as_slice(), c + 1, n);
                    let ok = verify_signature(content, key, sig);
                    proof {
                        assert(content@ == cur.last().subrange(0, c as int));
                        assert(sig@ == cur.last().subrange(c as int + 1, cur.last().len() as int));
                        assert(line_verdict(key@, cur.last()) == (if ok {
                            LineVerdict::Valid
                        } else {
                            LineVerdict::Tampered
                        }));
                    }
                    if ok {
                        valid = valid + 1;
                    } else {
                        errors = errors + 1;
                    }
                },
                None => {
                    proof {
                        assert(line_verdict(key@, cur.last()) == LineVerdict::FormatError);
                    }
                    errors = errors + 1;
                },
            }
        }
        i = i + 1;
    }
    proof {
        assert(rows.subrange(0, rows.len() as int) =~= rows);
    }
    VerifyReport { checked, valid, errors }
}

/// No byte of a hex encoding is a comma: every digit is in '0'..'9' or
/// 'a'..'f'.
pub proof fn lemma_hex_no_comma(s: Seq<u8>)
    ensures
        forall|i: int| 0 <= i < hex_bytes_of(s).len() ==> hex_bytes_of(s)[i] != 0x2c,
    decreases s.len(),
{
    if s.len() > 0 {
        lemma_hex_no_comma(s.drop_first());
        assert(forall|i: int|
            2 <= i < hex_bytes_of(s).len() ==> hex_bytes_of(s)[i] == hex_bytes_of(s.drop_first())[i
                - 2]);
    }
}

/// Appending comma-free bytes to a line does not move its last comma.
pub proof fn lemma_last_comma_append(line: Seq<u8>, suffix: Seq<u8>)
    requires
        forall|i: int| 0 <= i < suffix.len() ==> suffix[i] != 0x2c,
    ensures
        last_comma(line + suffix) == last_comma(line),
    decreases suffix.len(),
{
    if suffix.len() == 0 {
        assert(line + suffix =~= line);
    } else {
        assert((line + suffix).last() == suffix.last());
        assert((line + suffix).drop_last() =~= line + suffix.drop_last());
        lemma_last_comma_append(line, suffix.drop_last());
    }
}

/// A line written by the signer splits exactly where the signer put the
/// signature comma, is never blank, and always passes verification under
/// the key that signed it.
pub proof fn lemma_signed_row_parses(key: Seq<u8>, content: Seq<u8>)
    ensures
        last_comma(signed_row_spec(key, content)) == content.len(),
        !is_blank(signed_row_spec(key, content)),
        line_verdict(key, signed_row_spec(key, content)) == LineVerdict::Valid,
{
    let sig = signature_spec(key, content);
    let row = signed_row_spec(key, content);
    lemma_hex_no_comma(hmac_sha256(key, content));
    assert(row =~= (content + seq![0x2cu8]) + sig);
    lemma_last_comma_append(content + seq![0x2cu8], sig);
    assert((content + seq![0x2cu8]).last() == 0x2c);
    assert(last_comma(content + seq![0x2cu8]) == content.len());
    assert(row[content.len() as int] == 0x2c);
    assert(!is_space(0x2c));
    assert(row.subrange(0, content.len() as int) =~= content);
    assert(row.subrange(content.len() as int + 1, row.len() as int) =~= sig);
}

/// Law: in every scan, each checked row is counted exactly once, as valid
/// or as an error.
pub proof fn lemma_counts_partition(key: Seq<u8>, rows: Seq<Seq<u8>>)
    ensures
        valid_count(key, rows) + error_count(key, rows) == checked_count(rows),
    decreases rows.len(),
{
    if rows.len() > 0 {
        lemma_counts_partition(key, rows.drop_last());
    }
}

/// Whether a line is exactly what the writer emits for some content
/// under `key`: the content, a comma, and the content's own signature.
pub open spec fn is_signed_row(key: Seq<u8>, line: Seq<u8>) -> bool {
    exists|content: Seq<u8>| line == signed_row_spec(key, content)
}

/// Law: re-running verification over rows exactly as the writer produced
/// them, with the original key, checks every row, finds them all valid,
/// and reports zero errors.
pub proof fn lemma_unmodified_log_verifies(key: Seq<u8>, rows: Seq<Seq<u8>>)
    requires
        forall|i: int| 0 <= i < rows.len() ==> is_signed_row(key, #[trigger] rows[i]),
    ensures
        checked_count(rows) == rows.len(),
        valid_count(key, rows) == rows.len(),
        error_count(key, rows) == 0,
    decreases rows.len(),
{
    if rows.len() > 0 {
        assert forall|i: int| 0 <= i < rows.drop_last().len() implies is_signed_row(
            key,
            #[trigger] rows.drop_last()[i],
        ) by {
            assert(rows.drop_last()[i] == rows[i]);
        }
        lemma_unmodified_log_verifies(key, rows.drop_last());
        assert(is_signed_row(key, rows[rows.len() - 1]));
        let content = choose|content: Seq<u8>| rows.last() == signed_row_spec(key, content);
        lemma_signed_row_parses(key, content);
    }
}

} // verus!
