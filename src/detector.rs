//! The detector held in caller-owned storage, and the operations of the
//! bridge on it: construction, size, feeding a chunk, and guessing.

use chardetng::EncodingDetector;
use vstd::prelude::*;

use crate::hint::{is_hint_byte, is_valid_hint};
use crate::registry::{
    is_registered, lemma_registry_position, registry_index, registry_position, REGISTRY_LEN,
};

verus! {

/// The detector of the `chardetng` crate, carried as an opaque value.
#[verifier::external_type_specification]
#[verifier::external_body]
pub struct ExEncodingDetector(EncodingDetector);

/// The bytes fed so far to a detector of the outside crate, in order.
pub uninterp spec fn fed_stream(d: EncodingDetector) -> Seq<u8>;

/// Whether a detector of the outside crate has been fed its terminal chunk.
pub uninterp spec fn stream_closed(d: EncodingDetector) -> bool;

/// The calls made so far to feed a detector of the outside crate, in order:
/// each chunk with its terminal flag.
pub uninterp spec fn fed_calls(d: EncodingDetector) -> Seq<(Seq<u8>, bool)>;

/// The canonical name of the encoding that the outside detection algorithm
/// guesses after a sequence of feed calls, for a hint and a UTF-8 policy.
/// Chunk boundaries can matter to the algorithm, so the calls are kept
/// apart rather than joined.
pub uninterp spec fn guess_name(calls: Seq<(Seq<u8>, bool)>, tld: Seq<u8>, allow_utf8: bool) -> Seq<char>;

/// Whether some byte of `s` is not ASCII.
pub open spec fn has_non_ascii(s: Seq<u8>) -> bool {
    exists|i: int| 0 <= i < s.len() && #[trigger] s[i] >= 0x80
}

/// Relies on `EncodingDetector::new`: a fresh detector has seen no byte and
/// is open.
#[verifier::external_body]
fn new_encoding_detector() -> (r: EncodingDetector)
    ensures
        fed_stream(r) == Seq::<u8>::empty(),
        fed_calls(r) == Seq::<(Seq<u8>, bool)>::empty(),
        !stream_closed(r),
{
    EncodingDetector::new()
}

/// Relies on `EncodingDetector::feed`: the chunk is appended to the stream,
/// `last` ends it, and the result says whether the stream so far holds a
/// non-ASCII byte. The call panics on a detector that was already ended.
#[verifier::external_body]
fn feed_encoding_detector(d: &mut EncodingDetector, buffer: &[u8], last: bool) -> (r: bool)
    requires
        !stream_closed(*old(d)),
    ensures
        fed_stream(*final(d)) == fed_stream(*old(d)) + buffer@,
        fed_calls(*final(d)) == fed_calls(*old(d)).push((buffer@, last)),
        stream_closed(*final(d)) == last,
        r == has_non_ascii(fed_stream(*final(d))),
{
    d.feed(buffer, last)
}

/// Relies on `EncodingDetector::guess`, with the result reported by its
/// canonical name through `Encoding::name`. The guess depends on the feed
/// calls made so far, the hint and the policy; it is one of the encodings the
/// algorithm detects, and never UTF-8 when UTF-8 is not allowed. The call
/// panics on a hint with a non-ASCII byte, a period or an upper-case letter.
#[verifier::external_body]
fn guess_encoding_name(d: &EncodingDetector, tld: &[u8], allow_utf8: bool) -> (r: &'static str)
    requires
        is_valid_hint(tld@),
    ensures
        r@ == guess_name(fed_calls(*d), tld@, allow_utf8),
        is_registered(r@),
        !allow_utf8 ==> r@ != "UTF-8"@,
{
    d.guess(Some(tld), allow_utf8).name()
}

/// What a detector has accumulated: the bytes fed so far, in order, the
/// feed calls that brought them, and whether the terminal chunk has been
/// fed.
pub struct DetectorState {
    pub stream: Seq<u8>,
    pub calls: Seq<(Seq<u8>, bool)>,
    pub closed: bool,
}

/// The state of a detector that has been fed nothing.
pub open spec fn fresh_state() -> DetectorState {
    DetectorState { stream: Seq::empty(), calls: Seq::empty(), closed: false }
}

/// The state after feeding `chunk` to a detector in state `s`, with `last`
/// marking the chunk as terminal.
pub open spec fn feed_step(s: DetectorState, chunk: Seq<u8>, last: bool) -> DetectorState {
    DetectorState { stream: s.stream + chunk, calls: s.calls.push((chunk, last)), closed: last }
}

/// Whether the stream fed to a detector in state `s` has held a non-ASCII
/// byte.
pub open spec fn non_ascii_seen(s: DetectorState) -> bool {
    has_non_ascii(s.stream)
}

/// The hint "com", which stands for an absent hint.
pub open spec fn default_hint() -> Seq<u8> {
    seq![0x63u8, 0x6fu8, 0x6du8]
}

/// The hint that the algorithm is given: `tld`, or "com" when it is empty.
pub open spec fn effective_hint(tld: Seq<u8>) -> Seq<u8> {
    if tld.len() == 0 {
        default_hint()
    } else {
        tld
    }
}

/// The registry position of the encoding guessed for a detector in state
/// `s`, with hint `tld` (empty for none) and UTF-8 policy `allow_utf8`.
pub open spec fn guess_index(s: DetectorState, tld: Seq<u8>, allow_utf8: bool) -> int {
    registry_position(guess_name(s.calls, effective_hint(tld), allow_utf8))
}

/// One detector: the outside detection state, and whether its stream has
/// been ended.
pub struct Detector {
    inner: EncodingDetector,
    closed: bool,
}

impl View for Detector {
    type V = DetectorState;

    closed spec fn view(&self) -> DetectorState {
        DetectorState {
            stream: fed_stream(self.inner),
            calls: fed_calls(self.inner),
            closed: stream_closed(self.inner),
        }
    }
}

impl Detector {
    /// The flag kept beside the outside state agrees with it.
    pub closed spec fn wf(&self) -> bool {
        self.closed == stream_closed(self.inner)
    }

    /// A detector that has been fed nothing.
    pub fn new() -> (r: Detector)
        ensures
            r.wf(),
            r@ == fresh_state(),
    {
        Detector { inner: new_encoding_detector(), closed: false }
    }

    /// Whether the terminal chunk has been fed; no chunk may follow it.
    pub fn is_closed(&self) -> (r: bool)
        requires
            self.wf(),
        ensures
            r == self@.closed,
    {
        self.closed
    }
}

/// Initializes a fresh detector in `destination`; its prior content is
/// neither read nor kept.
pub fn chardetng_j_encoding_detector_new_into(destination: &mut Detector)
    ensures
        final(destination).wf(),
        final(destination)@ == fresh_state(),
{
    *destination = Detector::new();
}

/// The number of bytes that the storage of one detector takes. It is the
/// same on every call.
pub fn chardetng_j_size_of_encoding_detector() -> (r: usize)
    ensures
        r as nat == vstd::layout::size_of::<Detector>(),
{
    core::mem::size_of::<Detector>()
}

/// Appends `buffer` to the stream fed to `detector`, `last` marking it as
/// the terminal chunk, and returns whether the stream has held a non-ASCII
/// byte so far. Once true, the result stays true for the rest of the stream.
pub fn chardetng_j_encoding_detector_feed(detector: &mut Detector, buffer: &[u8], last: bool) -> (r: bool)
    requires
        !old(detector)@.closed,
    ensures
        final(detector).wf(),
        final(detector)@ == feed_step(old(detector)@, buffer@, last),
        r == non_ascii_seen(final(detector)@),
        non_ascii_seen(old(detector)@) ==> r,
{
    let r = feed_encoding_detector(&mut detector.inner, buffer, last);
    detector.closed = last;
    proof {
        let s = fed_stream(old(detector).inner);
        if has_non_ascii(s) {
            let i = choose|i: int| 0 <= i < s.len() && #[trigger] s[i] >= 0x80;
            assert((s + buffer@)[i] >= 0x80);
        }
    }
    r
}

/// The registry position of the encoding guessed from the bytes fed so far,
/// the hint `tld` (empty for none, which is taken as "com")
/// and whether UTF-8 may be guessed. The position is always in the
/// registry, and never that of UTF-8 when UTF-8 is not allowed.
pub fn chardetng_j_encoding_detector_guess(detector: &Detector, tld: &[u8], allow_utf8: bool) -> (r: usize)
    requires
        is_valid_hint(tld@),
    ensures
        r as int == guess_index(detector@, tld@, allow_utf8),
        r < REGISTRY_LEN,
        !allow_utf8 ==> r != 0,
{
    let com: [u8; 3] = [0x63, 0x6f, 0x6d];
    let hint: &[u8] = if tld.len() == 0 {
        com.as_slice()
    } else {
        tld
    };
    proof {
        assert(com@ =~= default_hint());
        assert(is_valid_hint(hint@)) by {
            if tld@.len() == 0 {
                assert(is_hint_byte(hint@[0]) && is_hint_byte(hint@[1]) && is_hint_byte(hint@[2]));
            }
        }
    }
    let name = guess_encoding_name(&detector.inner, hint, allow_utf8);
    proof {
        lemma_registry_position(name@);
    }
    registry_index(name).unwrap()
}

} // verus!
