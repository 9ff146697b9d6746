use vstd::prelude::*;
use crate::sign::{sign_data, signature_spec};

verus! {

/// Activity status derived once per logging tick.
#[derive(Clone, Copy, PartialEq, Eq, Structural, Debug)]
pub enum Status {
    Active,
    Idle,
    Inactive,
}

/// The ASCII bytes of "N/A", the default for window metadata that could
/// not be looked up.
pub open spec fn na_label() -> Seq<u8> {
    seq![0x4eu8, 0x2f, 0x41]
}

/// The ASCII bytes of the status column: "ACTIVE", "IDLE" or "INACTIVE".
pub open spec fn status_label(s: Status) -> Seq<u8> {
    match s {
        Status::Active => seq![0x41u8, 0x43, 0x54, 0x49, 0x56, 0x45],
        Status::Idle => seq![0x49u8, 0x44, 0x4c, 0x45],
        Status::Inactive => seq![0x49u8, 0x4e, 0x41, 0x43, 0x54, 0x49, 0x56, 0x45],
    }
}

/// The ASCII bytes of the fixed CSV header row, naming every record field
/// and the trailing signature column:
/// "Timestamp,Keystrokes,MouseEvents,Status,AppName,WindowTitle,ScreenshotPath,Signature".
pub open spec fn header_label() -> Seq<u8> {
    seq![0x54u8, 0x69, 0x6d, 0x65, 0x73, 0x74, 0x61, 0x6d, 0x70, 0x2c, 0x4b, 0x65, 0x79, 0x73,
        0x74, 0x72, 0x6f, 0x6b, 0x65, 0x73, 0x2c, 0x4d, 0x6f, 0x75, 0x73, 0x65, 0x45, 0x76, 0x65,
        0x6e, 0x74, 0x73, 0x2c, 0x53, 0x74, 0x61, 0x74, 0x75, 0x73, 0x2c, 0x41, 0x70, 0x70, 0x4e,
        0x61, 0x6d, 0x65, 0x2c, 0x57, 0x69, 0x6e, 0x64, 0x6f, 0x77, 0x54, 0x69, 0x74, 0x6c, 0x65,
        0x2c, 0x53, 0x63, 0x72, 0x65, 0x65, 0x6e, 0x73, 0x68, 0x6f, 0x74, 0x50, 0x61, 0x74, 0x68,
        0x2c, 0x53, 0x69, 0x67, 0x6e, 0x61, 0x74, 0x75, 0x72, 0x65]
}

/// Decimal ASCII rendering of a natural number, most significant digit
/// first, with no leading zeros (a bare "0" for zero).
pub open spec fn dec_digits(n: nat) -> Seq<u8>
    decreases n,
{
    if n < 10 {
        seq![(0x30 + n) as u8]
    } else {
        dec_digits(n / 10) + seq![(0x30 + n % 10) as u8]
    }
}

/// `s` with every comma removed and all other bytes kept in order.
pub open spec fn strip_commas_spec(s: Seq<u8>) -> Seq<u8>
    decreases s.len(),
{
    if s.len() == 0 {
        Seq::<u8>::empty()
    } else {
        strip_commas_spec(s.drop_last()) + (if s.last() == 0x2c {
            Seq::<u8>::empty()
        } else {
            seq![s.last()]
        })
    }
}

/// Append every byte of `piece` to `out`.
pub fn append_bytes(out: &mut Vec<u8>, piece: &[u8])
    ensures
        final(out)@ == old(out)@ + piece@,
{
    let ghost out0 = out@;
    let mut i: usize = 0;
    while i < piece.len()
        invariant
            i <= piece@.len(),
            out@ == out0 + piece@.subrange(0, i as int),
        decreases piece@.len() - i,
    {
        out.push(piece[i]);
        proof {
            assert(piece@.subrange(0, i + 1) =~= piece@.subrange(0, i as int) + seq![piece@[i as int]]);
            assert(out@ =~= out0 + piece@.subrange(0, i + 1));
        }
        i = i + 1;
    }
    proof {
        assert(piece@.subrange(0, piece@.len() as int) =~= piece@);
    }
}

/// Append the decimal digits of `n` to `out`.
pub fn push_decimal(out: &mut Vec<u8>, n: u64)
    ensures
        final(out)@ == old(out)@ + dec_digits(n as nat),
    decreases n,
{
    if n >= 10 {
        push_decimal(out, n / 10);
    }
    out.push(0x30 + (n % 10) as u8);
    proof {
        if n < 10 {
            assert(out@ =~= old(out)@ + dec_digits(n as nat));
        } else {
            assert(out@ =~= old(out)@ + (dec_digits((n / 10) as nat) + seq![
                (0x30 + n as nat % 10) as u8,
            ]));
        }
    }
}

/// The decimal digits of `n` as a fresh byte vector.
pub fn u64_to_decimal(n: u64) -> (r: Vec<u8>)
    ensures
        r@ == dec_digits(n as nat),
{
    let mut out: Vec<u8> = Vec::new();
    push_decimal(&mut out, n);
    out
}

/// Remove every comma from `s`, keeping all other bytes in order.
pub fn strip_commas(s: &[u8]) -> (r: Vec<u8>)
    ensures
        r@ == strip_commas_spec(s@),
{
    let mut out: Vec<u8> = Vec::new();
    let mut i: usize = 0;
    while i < s.len()
        invariant
            i <= s@.len(),
            out@ == strip_commas_spec(s@.subrange(0, i as int)),
        decreases s@.len() - i,
    {
        if s[i] != 0x2c {
            out.push(s[i]);
        }
        proof {
            assert(s@.subrange(0, i + 1).drop_last() =~= s@.subrange(0, i as int));
            assert(s@.subrange(0, i + 1).last() == s@[i as int]);
            assert(out@ =~= strip_commas_spec(s@.subrange(0, i + 1)));
        }
        i = i + 1;
    }
    proof {
        assert(s@.subrange(0, s@.len() as int) =~= s@);
    }
    out
}

/// One conceptual log row, before signing.
///
/// The window title holds no commas (the constructor strips them), so the
/// double-quoted title column can be carried through the comma-separated
/// row without a general CSV escaping scheme.
pub struct LogRecord {
    pub timestamp: Vec<u8>,
    pub keystrokes: u64,
    pub mouse_events: u64,
    pub status: Status,
    pub app_name: Vec<u8>,
    pub window_title: Vec<u8>,
    pub screenshot: Vec<u8>,
}

impl LogRecord {
    /// The canonical serialization: the exact comma-joined byte string
    /// written to the log file and fed to the signer, with the window
    /// title double-quoted.
    pub open spec fn serialized(self) -> Seq<u8> {
        self.timestamp@ + seq![0x2cu8] + dec_digits(self.keystrokes as nat) + seq![0x2cu8]
            + dec_digits(self.mouse_events as nat) + seq![0x2cu8] + status_label(self.status)
            + seq![0x2cu8] + self.app_name@ + seq![0x2cu8, 0x22] + self.window_title@ + seq![0x22u8,
            0x2c] + self.screenshot@
    }

    /// Build a record for one logging tick.  Window metadata defaults to
    /// "N/A" when the lookup yielded nothing, and the title has its
    /// commas stripped; all other fields are taken as given.
    pub fn new(
        timestamp: Vec<u8>,
        keystrokes: u64,
        mouse_events: u64,
        status: Status,
        window: Option<(Vec<u8>, Vec<u8>)>,
        screenshot: Vec<u8>,
    ) -> (rec: LogRecord)
        ensures
            rec.timestamp == timestamp,
            rec.keystrokes == keystrokes,
            rec.mouse_events == mouse_events,
            rec.status == status,
            match window {
                Some(w) => rec.app_name == w.0 && rec.window_title@ == strip_commas_spec(w.1@),
                None => rec.app_name@ == na_label() && rec.window_title@ == na_label(),
            },
            rec.screenshot == screenshot,
    {
        let (app_name, window_title): (Vec<u8>, Vec<u8>) = match window {
            Some((app, title)) => {
                let stripped = strip_commas(title.as_slice());
                (app, stripped)
            },
            None => {
                let na1: Vec<u8> = vec![0x4eu8, 0x2f, 0x41];
                let na2: Vec<u8> = vec![0x4eu8, 0x2f, 0x41];
                proof {
                    assert(na1@ =~= na_label());
                    assert(na2@ =~= na_label());
                }
                (na1, na2)
            },
        };
        LogRecord { timestamp, keystrokes, mouse_events, status, app_name, window_title, screenshot }
    }

    /// Produce the canonical serialization of this record.
    pub fn serialize(&self) -> (row: Vec<u8>)
        ensures
            row@ == self.serialized(),
    {
        let mut out: Vec<u8> = Vec::new();
        append_bytes(&mut out, self.timestamp.as_slice());
        out.push(0x2c);
        push_decimal(&mut out, self.keystrokes);
        out.push(0x2c);
        push_decimal(&mut out, self.mouse_events);
        out.push(0x2c);
        let label = status_bytes(self.status);
        append_bytes(&mut out, label.as_slice());
        out.push(0x2c);
        append_bytes(&mut out, self.app_name.as_slice());
        out.push(0x2c);
        out.push(0x22);
        append_bytes(&mut out, self.window_title.as_slice());
        out.push(0x22);
        out.push(0x2c);
        append_bytes(&mut out, self.screenshot.as_slice());
        proof {
            assert(out@ =~= self.serialized());
        }
        out
    }

    /// Serialize this record and append the comma-separated signature
    /// column: the full line written to the log file (without the
    /// trailing newline).
    pub fn signed_row(&self, key: &[u8]) -> (line: Vec<u8>)
        ensures
            line@ == signed_row_spec(key@, self.serialized()),
    {
        let content = self.serialize();
        let sig = sign_data(content.as_slice(), key);
        let mut line = content;
        line.push(0x2c);
        append_bytes(&mut line, sig.as_slice());
        proof {
            assert(line@ =~= signed_row_spec(key@, self.serialized()));
        }
        line
    }
}

/// A full signed log line: the content, one comma, then the signature of
/// that content under `key`.
pub open spec fn signed_row_spec(key: Seq<u8>, content: Seq<u8>) -> Seq<u8> {
    content + seq![0x2cu8] + signature_spec(key, content)
}

/// The exec rendering of a status label.
pub fn status_bytes(s: Status) -> (r: Vec<u8>)
    ensures
        r@ == status_label(s),
{
    match s {
        Status::Active => {
            let v: Vec<u8> = vec![0x41u8, 0x43, 0x54, 0x49, 0x56, 0x45];
            proof {
                assert(v@ =~= status_label(Status::Active));
            }
            v
        },
        Status::Idle => {
            let v: Vec<u8> = vec![0x49u8, 0x44, 0x4c, 0x45];
            proof {
                assert(v@ =~= status_label(Status::Idle));
            }
            v
        },
        Status::Inactive => {
            let v: Vec<u8> = vec![0x49u8, 0x4e, 0x41, 0x43, 0x54, 0x49, 0x56, 0x45];
            proof {
                assert(v@ =~= status_label(Status::Inactive));
            }
            v
        },
    }
}

/// The exec rendering of the CSV header row (without the trailing
/// newline).
pub fn header_row() -> (r: Vec<u8>)
    ensures
        r@ == header_label(),
{
    let v: Vec<u8> = vec![0x54u8, 0x69, 0x6d, 0x65, 0x73, 0x74, 0x61, 0x6d, 0x70, 0x2c, 0x4b, 0x65,
        0x79, 0x73, 0x74, 0x72, 0x6f, 0x6b, 0x65, 0x73, 0x2c, 0x4d, 0x6f, 0x75, 0x73, 0x65, 0x45,
        0x76, 0x65, 0x6e, 0x74, 0x73, 0x2c, 0x53, 0x74, 0x61, 0x74, 0x75, 0x73, 0x2c, 0x41, 0x70,
        0x70, 0x4e, 0x61, 0x6d, 0x65, 0x2c, 0x57, 0x69, 0x6e, 0x64, 0x6f, 0x77, 0x54, 0x69, 0x74,
        0x6c, 0x65, 0x2c, 0x53, 0x63, 0x72, 0x65, 0x65, 0x6e, 0x73, 0x68, 0x6f, 0x74, 0x50, 0x61,
        0x74, 0x68, 0x2c, 0x53, 0x69, 0x67, 0x6e, 0x61, 0x74, 0x75, 0x72, 0x65];
    proof {
        assert(v@ =~= header_label());
    }
    v
}

} // verus!
