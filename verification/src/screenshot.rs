use vstd::prelude::*;
use crate::record::append_bytes;

verus! {

/// The dedup content hash of a raw frame pixel buffer: a value determined
/// by the pixel bytes alone.  It is a fast non-cryptographic heuristic
/// for spotting repeated frames, not a security control.
pub uninterp spec fn frame_hash_of(pixels: Seq<u8>) -> u64;

/// Relies on `std::collections::hash_map::DefaultHasher` (`write`, then
/// `finish`): instances created through `new` are documented to be
/// identical to each other, so the result depends on the hashed bytes
/// alone.
#[verifier::external_body]
pub fn hash_frame(pixels: &[u8]) -> (h: u64)
    ensures
        h == frame_hash_of(pixels@),
{
    let mut hasher = std::collections::hash_map::DefaultHasher::new();
    std::hash::Hasher::write(&mut hasher, pixels);
    std::hash::Hasher::finish(&hasher)
}

/// What to do with one captured frame.
#[derive(Clone, Copy, PartialEq, Eq, Structural, Debug)]
pub enum FrameDecision {
    Save,
    Duplicate,
}

/// The single dedup slot: the content hash of the most recently kept
/// frame, empty at the start of a run (so the first captured frame is
/// always saved).
pub struct DedupState {
    pub last_hash: Option<u64>,
}

/// How one frame with hash `h` changes the dedup slot: a repeat of the
/// stored hash is skipped and leaves the slot untouched; any other frame
/// is saved and overwrites the slot with `h`.
pub open spec fn dedup_step(
    pre: DedupState,
    post: DedupState,
    h: u64,
    d: FrameDecision,
) -> bool {
    if pre.last_hash == Some(h) {
        d == FrameDecision::Duplicate && post == pre
    } else {
        d == FrameDecision::Save && post.last_hash == Some(h)
    }
}

impl DedupState {
    /// A fresh run, with no frame seen yet.
    pub fn new() -> (s: DedupState)
        ensures
            s.last_hash.is_none(),
    {
        DedupState { last_hash: None }
    }

    /// Record one frame hash and decide whether the frame is a duplicate
    /// of the previous one or should be saved.
    pub fn note_frame(&mut self, h: u64) -> (d: FrameDecision)
        ensures
            dedup_step(*old(self), *final(self), h, d),
    {
        let duplicate = match self.last_hash {
            Some(prev) => prev == h,
            None => false,
        };
        if duplicate {
            FrameDecision::Duplicate
        } else {
            self.last_hash = Some(h);
            FrameDecision::Save
        }
    }
}

/// Hash a captured frame's pixel buffer and run the dedup decision on it.
pub fn process_frame(state: &mut DedupState, pixels: &[u8]) -> (d: FrameDecision)
    ensures
        dedup_step(*old(state), *final(state), frame_hash_of(pixels@), d),
{
    let h = hash_frame(pixels);
    state.note_frame(h)
}

/// The ASCII bytes of "None", the sentinel recorded when no screenshot
/// was captured or saving it failed.
pub open spec fn none_label() -> Seq<u8> {
    seq![0x4eu8, 0x6f, 0x6e, 0x65]
}

/// The ASCII bytes of "Duplicate (Skipped)", the sentinel recorded when
/// the captured frame repeated the previous one.
pub open spec fn duplicate_label() -> Seq<u8> {
    seq![0x44u8, 0x75, 0x70, 0x6c, 0x69, 0x63, 0x61, 0x74, 0x65, 0x20, 0x28, 0x53, 0x6b, 0x69,
        0x70, 0x70, 0x65, 0x64, 0x29]
}

/// The saved-screenshot path for a capture timestamp:
/// "screenshots/screen_" + timestamp + ".jpg".
pub open spec fn screenshot_path_spec(timestamp: Seq<u8>) -> Seq<u8> {
    seq![0x73u8, 0x63, 0x72, 0x65, 0x65, 0x6e, 0x73, 0x68, 0x6f, 0x74, 0x73, 0x2f, 0x73, 0x63,
        0x72, 0x65, 0x65, 0x6e, 0x5f] + timestamp + seq![0x2eu8, 0x6a, 0x70, 0x67]
}

/// The exec rendering of the "None" sentinel.
pub fn none_bytes() -> (r: Vec<u8>)
    ensures
        r@ == none_label(),
{
    let v: Vec<u8> = vec![0x4eu8, 0x6f, 0x6e, 0x65];
    proof {
        assert(v@ =~= none_label());
    }
    v
}

/// The exec rendering of the "Duplicate (Skipped)" sentinel.
pub fn duplicate_bytes() -> (r: Vec<u8>)
    ensures
        r@ == duplicate_label(),
{
    let v: Vec<u8> = vec![0x44u8, 0x75, 0x70, 0x6c, 0x69, 0x63, 0x61, 0x74, 0x65, 0x20, 0x28, 0x53,
        0x6b, 0x69, 0x70, 0x70, 0x65, 0x64, 0x29];
    proof {
        assert(v@ =~= duplicate_label());
    }
    v
}

/// Build the file path a saved screenshot is persisted under, from a
/// capture timestamp with second-level uniqueness.
pub fn screenshot_path(timestamp: &[u8]) -> (r: Vec<u8>)
    ensures
        r@ == screenshot_path_spec(timestamp@),
{
    let mut out: Vec<u8> = vec![0x73u8, 0x63, 0x72, 0x65, 0x65, 0x6e, 0x73, 0x68, 0x6f, 0x74, 0x73,
        0x2f, 0x73, 0x63, 0x72, 0x65, 0x65, 0x6e, 0x5f];
    append_bytes(&mut out, timestamp);
    out.push(0x2e);
    out.push(0x6a);
    out.push(0x70);
    out.push(0x67);
    proof {
        assert(out@ =~= screenshot_path_spec(timestamp@));
    }
    out
}

/// Law: a frame the dedup slot does not already hold is saved; an
/// immediately repeated identical frame is skipped exactly once and
/// leaves the slot unchanged; a changed frame after the duplicates is
/// saved again and the slot is updated to its hash.
pub proof fn lemma_dedup_sequence(
    s0: DedupState,
    s1: DedupState,
    s2: DedupState,
    s3: DedupState,
    h: u64,
    h2: u64,
    d1: FrameDecision,
    d2: FrameDecision,
    d3: FrameDecision,
)
    requires
        s0.last_hash != Some(h),
        dedup_step(s0, s1, h, d1),
        dedup_step(s1, s2, h, d2),
        h2 != h,
        dedup_step(s2, s3, h2, d3),
    ensures
        d1 == FrameDecision::Save,
        d2 == FrameDecision::Duplicate,
        s2 == s1,
        d3 == FrameDecision::Save,
        s3.last_hash == Some(h2),
{
}

} // verus!
