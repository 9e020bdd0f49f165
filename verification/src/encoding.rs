//! Fixed-size framing: every message is preceded by its length as a 4-byte
//! little-endian integer.
use vstd::prelude::*;
use crate::util::bytes::{views, copy_range, append_range};
use vstd::arithmetic::div_mod::{lemma_mod_breakdown, lemma_div_denominator};

verus! {

/// Integer type used to store the frame length.
pub type Padding = u32;

/// Number of bytes of the frame header.
pub const PADDING: usize = 4;

/// The four little-endian bytes of the low 32 bits of `v`.
pub open spec fn le_padding_bytes(v: nat) -> Seq<u8> {
    seq![
        (v % 256) as u8,
        ((v / 256) % 256) as u8,
        ((v / 65536) % 256) as u8,
        ((v / 16777216) % 256) as u8,
    ]
}

/// The value of the first four bytes of `s` read as a little-endian integer.
pub open spec fn le_padding_value(s: Seq<u8>) -> nat
    recommends
        s.len() >= PADDING,
{
    s[0] as nat + 256 * (s[1] as nat) + 65536 * (s[2] as nat) + 16777216 * (s[3] as nat)
}

/// The message size announced at the start of `s`, if `s` holds a whole header.
pub open spec fn header_size(s: Seq<u8>) -> Option<nat> {
    if s.len() < PADDING {
        None
    } else {
        Some(le_padding_value(s))
    }
}

/// The frame of one message.
pub open spec fn encode_frame(message: Seq<u8>) -> Seq<u8> {
    le_padding_bytes(message.len()) + message
}

/// The frames of several messages, one after the other.
pub open spec fn encode_all(messages: Seq<Seq<u8>>) -> Seq<u8>
    decreases messages.len(),
{
    if messages.len() == 0 {
        Seq::empty()
    } else {
        encode_frame(messages[0]) + encode_all(messages.drop_first())
    }
}

/// Splits a byte stream into the complete messages at its start and the
/// bytes after the last complete frame.
pub open spec fn frames(s: Seq<u8>) -> (Seq<Seq<u8>>, Seq<u8>)
    decreases s.len(),
{
    match header_size(s) {
        Some(size) => {
            if PADDING + size <= s.len() {
                let rest = frames(s.subrange(PADDING + size, s.len() as int));
                (seq![s.subrange(PADDING as int, PADDING + size)] + rest.0, rest.1)
            } else {
                (Seq::empty(), s)
            }
        },
        None => (Seq::empty(), s),
    }
}

/// A stream that holds no complete frame beyond the first one, and no byte
/// after the first frame.
pub open spec fn is_pending(s: Seq<u8>) -> bool {
    match header_size(s) {
        Some(size) => s.len() <= PADDING + size,
        None => true,
    }
}

/// What one call of [`Decoder::decode`] gives: the messages completed by
/// `data` after the `stored` bytes, and the bytes kept for later.
pub open spec fn decode_step(stored: Seq<u8>, data: Seq<u8>) -> (Seq<Seq<u8>>, Seq<u8>) {
    frames(stored + data)
}

/// Successive calls of [`Decoder::decode`] with the given chunks.
pub open spec fn decode_run(stored: Seq<u8>, chunks: Seq<Seq<u8>>) -> (Seq<Seq<u8>>, Seq<u8>)
    decreases chunks.len(),
{
    if chunks.len() == 0 {
        (Seq::empty(), stored)
    } else {
        let first = decode_step(stored, chunks[0]);
        let rest = decode_run(first.1, chunks.drop_first());
        (first.0 + rest.0, rest.1)
    }
}

/// Reading back the header of a message of length `v` gives `v` modulo
/// 2^32, so exactly `v` for every length that the header can hold.
pub proof fn lemma_le_padding_roundtrip(v: nat)
    ensures
        le_padding_value(le_padding_bytes(v)) == v % 4294967296,
        le_padding_bytes(v).len() == PADDING,
{
    let b = le_padding_bytes(v);
    assert(b[0] as nat == v % 256);
    assert(b[1] as nat == (v / 256) % 256);
    assert(b[2] as nat == (v / 65536) % 256);
    assert(b[3] as nat == (v / 16777216) % 256);
    let x = v as int;
    lemma_mod_breakdown(x, 256, 16777216);
    lemma_mod_breakdown(x / 256, 256, 65536);
    lemma_mod_breakdown(x / 65536, 256, 256);
    lemma_div_denominator(x, 256, 256);
    lemma_div_denominator(x, 65536, 256);
    assert(256 * 16777216 == 4294967296);
}

/// The header bytes at the start of a stream are those written for the size
/// they announce.
proof fn lemma_header_bytes(s: Seq<u8>, size: nat)
    requires
        header_size(s) == Some(size),
    ensures
        le_padding_bytes(size) == s.subrange(0, PADDING as int),
{
    let b0 = s[0] as nat;
    let b1 = s[1] as nat;
    let b2 = s[2] as nat;
    let b3 = s[3] as nat;
    assert(size == b0 + 256 * b1 + 65536 * b2 + 16777216 * b3);
    assert(size % 256 == b0 && (size / 256) % 256 == b1 && (size / 65536) % 256 == b2 && (size
        / 16777216) % 256 == b3) by (nonlinear_arith)
        requires
            size == b0 + 256 * b1 + 65536 * b2 + 16777216 * b3,
            b0 < 256,
            b1 < 256,
            b2 < 256,
            b3 < 256,
    ;
    assert(le_padding_bytes(size) =~= s.subrange(0, PADDING as int));
}

proof fn lemma_header_prefix(a: Seq<u8>, b: Seq<u8>)
    requires
        a.len() >= PADDING,
    ensures
        header_size(a + b) == header_size(a),
{
    assert((a + b)[0] == a[0]);
    assert((a + b)[1] == a[1]);
    assert((a + b)[2] == a[2]);
    assert((a + b)[3] == a[3]);
}

/// What is left after the complete frames of a stream is always pending.
pub proof fn lemma_frames_rest_pending(s: Seq<u8>)
    ensures
        is_pending(frames(s).1),
    decreases s.len(),
{
    match header_size(s) {
        Some(size) => {
            if PADDING + size <= s.len() {
                lemma_frames_rest_pending(s.subrange(PADDING + size, s.len() as int));
            }
        },
        None => {},
    }
}

/// Splitting a stream in two: the frames of the whole are those of the first
/// part, followed by those of its leftover joined to the second part.
pub proof fn lemma_frames_append(a: Seq<u8>, b: Seq<u8>)
    ensures
        frames(a + b).0 == frames(a).0 + frames(frames(a).1 + b).0,
        frames(a + b).1 == frames(frames(a).1 + b).1,
    decreases a.len(),
{
    match header_size(a) {
        Some(size) => {
            lemma_header_prefix(a, b);
            if PADDING + size <= a.len() {
                let k = PADDING + size;
                let ra = a.subrange(k as int, a.len() as int);
                assert((a + b).subrange(k as int, (a + b).len() as int) =~= ra + b);
                assert((a + b).subrange(PADDING as int, k as int) =~= a.subrange(
                    PADDING as int,
                    k as int,
                ));
                lemma_frames_append(ra, b);
                assert(frames(a + b).0 =~= frames(a).0 + frames(frames(a).1 + b).0);
            }
        },
        None => {},
    }
}

/// Encoding then splitting gives the messages back and leaves nothing.
pub proof fn lemma_frames_encode_all(messages: Seq<Seq<u8>>)
    requires
        forall|i: int| 0 <= i < messages.len() ==> (#[trigger] messages[i]).len() < 4294967296,
    ensures
        frames(encode_all(messages)) == (messages, Seq::<u8>::empty()),
    decreases messages.len(),
{
    if messages.len() == 0 {
        assert(encode_all(messages) =~= Seq::<u8>::empty());
    } else {
        let m = messages[0];
        let rest = messages.drop_first();
        assert forall|i: int| 0 <= i < rest.len() implies (#[trigger] rest[i]).len()
            < 4294967296 by {
            assert(rest[i] == messages[i + 1]);
        }
        lemma_frames_encode_all(rest);
        lemma_le_padding_roundtrip(m.len());
        let s = encode_all(messages);
        let h = le_padding_bytes(m.len());
        assert(s =~= h + (m + encode_all(rest)));
        lemma_header_prefix(h, m + encode_all(rest));
        assert(header_size(h) == Some(m.len()));
        let k = PADDING + m.len();
        assert(s.subrange(PADDING as int, k as int) =~= m);
        assert(s.subrange(k as int, s.len() as int) =~= encode_all(rest));
        assert(frames(s).0 =~= messages);
    }
}

/// The messages completed at the front of a prefix of an encoded stream are
/// the first messages of that stream, and the rest of the stream is the
/// encoding of the others.
pub proof fn lemma_frames_of_prefix(full: Seq<u8>, tail: Seq<u8>, messages: Seq<Seq<u8>>)
    requires
        full + tail == encode_all(messages),
        forall|i: int| 0 <= i < messages.len() ==> (#[trigger] messages[i]).len() < 4294967296,
    ensures
        frames(full).0.len() <= messages.len(),
        frames(full).0 == messages.take(frames(full).0.len() as int),
        frames(full).1 + tail == encode_all(messages.skip(frames(full).0.len() as int)),
    decreases full.len(),
{
    let x = full + tail;
    match header_size(full) {
        Some(size) => {
            if PADDING + size <= full.len() {
                let m = messages[0];
                let others = messages.drop_first();
                assert(messages.len() > 0) by {
                    if messages.len() == 0 {
                        assert(x.len() == 0);
                    }
                }
                lemma_le_padding_roundtrip(m.len());
                let h = le_padding_bytes(m.len());
                assert(x =~= h + (m + encode_all(others)));
                lemma_header_prefix(full, tail);
                lemma_header_prefix(h, m + encode_all(others));
                assert(size == m.len());
                let k = PADDING + size;
                let rest = full.subrange(k as int, full.len() as int);
                assert(full.subrange(PADDING as int, k as int) =~= m) by {
                    assert forall|i: int| 0 <= i < m.len() implies full.subrange(
                        PADDING as int,
                        k as int,
                    )[i] == m[i] by {
                        assert(full[PADDING + i] == x[PADDING + i]);
                        assert(x[PADDING + i] == (m + encode_all(others))[i]);
                    }
                }
                assert(rest + tail =~= encode_all(others)) by {
                    assert(rest + tail =~= x.subrange(k as int, x.len() as int));
                    assert(x.subrange(k as int, x.len() as int) =~= encode_all(others));
                }
                assert forall|i: int| 0 <= i < others.len() implies (#[trigger] others[i]).len()
                    < 4294967296 by {
                    assert(others[i] == messages[i + 1]);
                }
                lemma_frames_of_prefix(rest, tail, others);
                let n = frames(rest).0.len() as int;
                assert(frames(full).0 =~= messages.take(n + 1 as int));
                assert(others.skip(n as int) =~= messages.skip(n + 1 as int));
            } else {
                assert(messages.take(0) =~= Seq::<Seq<u8>>::empty());
                assert(messages.skip(0) =~= messages);
            }
        },
        None => {
            assert(messages.take(0) =~= Seq::<Seq<u8>>::empty());
            assert(messages.skip(0) =~= messages);
        },
    }
}

/// Decoding a stream cut into chunks in any way, one call per chunk, gives
/// the complete frames of the whole stream, in order, and keeps the bytes
/// after the last complete frame.
pub proof fn lemma_decode_run_frames(chunks: Seq<Seq<u8>>)
    ensures
        decode_run(Seq::empty(), chunks) == frames(chunks.flatten()),
{
    assert(Seq::<u8>::empty() + chunks.flatten() =~= chunks.flatten());
    lemma_decode_run_general(Seq::empty(), chunks);
}

/// Decoding the frames of messages, cut into chunks in any way, gives back
/// every message in order and keeps nothing at the end.
pub proof fn lemma_decode_run_encoded(chunks: Seq<Seq<u8>>, messages: Seq<Seq<u8>>)
    requires
        chunks.flatten() == encode_all(messages),
        forall|i: int| 0 <= i < messages.len() ==> (#[trigger] messages[i]).len() < 4294967296,
    ensures
        decode_run(Seq::empty(), chunks) == (messages, Seq::<u8>::empty()),
{
    lemma_decode_run_frames(chunks);
    lemma_frames_encode_all(messages);
}

/// Decoding chunks that make up a prefix of the frames of messages, cut in
/// any way: the messages given back are the first messages, in order, and
/// the bytes kept are those of the frame that is not complete yet, so that
/// the kept bytes followed by the rest of the stream are the frames of the
/// other messages.
pub proof fn lemma_decode_run_prefix(
    chunks: Seq<Seq<u8>>,
    tail: Seq<u8>,
    messages: Seq<Seq<u8>>,
)
    requires
        chunks.flatten() + tail == encode_all(messages),
        forall|i: int| 0 <= i < messages.len() ==> (#[trigger] messages[i]).len() < 4294967296,
    ensures
        ({
            let (given, kept) = decode_run(Seq::empty(), chunks);
            &&& given.len() <= messages.len()
            &&& given == messages.take(given.len() as int)
            &&& kept + tail == encode_all(messages.skip(given.len() as int))
            &&& chunks.flatten() == encode_all(given) + kept
            &&& is_pending(kept)
        }),
{
    lemma_decode_run_frames(chunks);
    lemma_frames_of_prefix(chunks.flatten(), tail, messages);
    lemma_frames_rest_pending(chunks.flatten());
    lemma_frames_split(chunks.flatten());
}

/// A stream is the frames of its complete messages followed by what is left.
proof fn lemma_frames_split(s: Seq<u8>)
    ensures
        s == encode_all(frames(s).0) + frames(s).1,
    decreases s.len(),
{
    match header_size(s) {
        Some(size) => {
            if PADDING + size <= s.len() {
                let k = PADDING + size;
                let rest = s.subrange(k as int, s.len() as int);
                let m = s.subrange(PADDING as int, k as int);
                assert(frames(s).0 == seq![m] + frames(rest).0);
                lemma_frames_split(rest);
                assert(frames(s).0.drop_first() =~= frames(rest).0);
                assert(frames(s).0[0] == m);
                assert(m.len() == size);
                assert(le_padding_bytes(m.len()) =~= s.subrange(0, PADDING as int)) by {
                    lemma_header_bytes(s, size);
                }
                let ms = frames(s).0;
                assert(encode_all(ms) == encode_frame(m) + encode_all(frames(rest).0));
                assert(frames(s).1 == frames(rest).1);
                assert(s =~= s.subrange(0, PADDING as int) + m + rest);
                assert(s =~= encode_all(frames(s).0) + frames(s).1);
            } else {
                assert(encode_all(frames(s).0) =~= Seq::<u8>::empty());
                assert(s =~= encode_all(frames(s).0) + frames(s).1);
            }
        },
        None => {
            assert(encode_all(frames(s).0) =~= Seq::<u8>::empty());
            assert(s =~= encode_all(frames(s).0) + frames(s).1);
        },
    }
}

proof fn lemma_decode_run_general(stored: Seq<u8>, chunks: Seq<Seq<u8>>)
    requires
        frames(stored) == (Seq::<Seq<u8>>::empty(), stored),
    ensures
        decode_run(stored, chunks) == frames(stored + chunks.flatten()),
    decreases chunks.len(),
{
    if chunks.len() == 0 {
        assert(stored + chunks.flatten() =~= stored);
    } else {
        let c = chunks[0];
        let cs = chunks.drop_first();
        assert(chunks.flatten() =~= c + cs.flatten());
        let full = stored + c;
        lemma_frames_rest_stable(full);
        lemma_decode_run_general(frames(full).1, cs);
        lemma_frames_append(full, cs.flatten());
        assert(stored + chunks.flatten() =~= full + cs.flatten());
    }
}

/// The leftover of a split holds no complete frame of its own.
proof fn lemma_frames_rest_stable(s: Seq<u8>)
    ensures
        frames(frames(s).1) == (Seq::<Seq<u8>>::empty(), frames(s).1),
    decreases s.len(),
{
    match header_size(s) {
        Some(size) => {
            if PADDING + size <= s.len() {
                lemma_frames_rest_stable(s.subrange(PADDING + size, s.len() as int));
            }
        },
        None => {},
    }
}

/// Encodes a message, returning the bytes that must be sent before the message.
pub fn encode_size(message: &[u8]) -> (header: [u8; PADDING])
    ensures
        header@ == le_padding_bytes(message@.len()),
{
    let n = message.len();
    let header = [
        (n % 256) as u8,
        ((n / 256) % 256) as u8,
        ((n / 65536) % 256) as u8,
        ((n / 16777216) % 256) as u8,
    ];
    assert(header@ =~= le_padding_bytes(message@.len()));
    header
}

/// Decodes an encoded value in a buffer.
/// Returns the message size, or `None` if the buffer is shorter than [`PADDING`].
pub fn decode_size(data: &[u8]) -> (size: Option<usize>)
    ensures
        match size {
            Some(v) => header_size(data@) == Some(v as nat),
            None => header_size(data@) is None,
        },
{
    if data.len() < PADDING {
        return None;
    }
    let value: u32 = data[0] as u32 + 256 * (data[1] as u32) + 65536 * (data[2] as u32)
        + 16777216 * (data[3] as u32);
    Some(value as usize)
}

/// Pushes every complete frame of `data` into `messages` and returns the
/// bytes after the last complete frame.
fn split_frames(data: &[u8], messages: &mut Vec<Vec<u8>>) -> (leftover: Vec<u8>)
    ensures
        views(final(messages)@) == views(old(messages)@) + frames(data@).0,
        leftover@ == frames(data@).1,
{
    let ghost d = data@;
    let mut pos: usize = 0;
    assert(d.subrange(0, d.len() as int) =~= d);
    loop
        invariant
            pos <= data@.len(),
            d == data@,
            views(messages@) + frames(d.subrange(pos as int, d.len() as int)).0 == views(
                old(messages)@,
            ) + frames(d).0,
            frames(d.subrange(pos as int, d.len() as int)).1 == frames(d).1,
        decreases data@.len() - pos,
    {
        let ghost rest = d.subrange(pos as int, d.len() as int);
        let available = data.len() - pos;
        if available >= PADDING {
            let size = decode_size(&data[pos..data.len()]).unwrap();
            if available - PADDING >= size {
                let start = pos + PADDING;
                let end = start + size;
                let message = copy_range(data, start, end);
                let ghost before = views(messages@);
                messages.push(message);
                assert(views(messages@) =~= before.push(message@));
                assert(rest.subrange(PADDING as int, PADDING + size) =~= message@);
                assert(rest.subrange(PADDING + size, rest.len() as int) =~= d.subrange(
                    end as int,
                    d.len() as int,
                ));
                pos = end;
                continue;
            }
        } else {
            assert(header_size(rest) is None);
        }
        return copy_range(data, pos, data.len());
    }
}

/// Used to decode messages from several/partial data chunks.
pub struct Decoder {
    stored: Vec<u8>,
}

impl View for Decoder {
    type V = Seq<u8>;

    /// The bytes kept from earlier chunks.
    closed spec fn view(&self) -> Seq<u8> {
        self.stored@
    }
}

impl Decoder {
    /// The kept bytes never hold more than the first frame.
    #[verifier::type_invariant]
    closed spec fn keeps_one_frame(self) -> bool {
        is_pending(self.stored@)
    }
}

impl Default for Decoder {
    /// Creates a new decoder.
    /// It will only reserve memory in cases where decoding needs to keep data among messages.
    fn default() -> (decoder: Decoder)
        ensures
            decoder@ == Seq::<u8>::empty(),
    {
        Decoder { stored: Vec::new() }
    }
}

impl Decoder {
    /// Returns the number of bytes kept in this decoder: header bytes and
    /// message bytes of a message that is not complete yet.
    pub fn stored_size(&self) -> (size: usize)
        ensures
            size == self@.len(),
    {
        self.stored.len()
    }

    /// Decodes as many messages as `data`, after the bytes kept from earlier
    /// calls, completes; they are returned in order.
    /// The bytes of a message that is not complete yet are kept until more data
    /// comes in later calls.
    pub fn decode(&mut self, data: &[u8]) -> (messages: Vec<Vec<u8>>)
        ensures
            views(messages@) == decode_step(old(self)@, data@).0,
            final(self)@ == decode_step(old(self)@, data@).1,
    {
        proof {
            use_type_invariant(&*self);
        }
        let mut messages: Vec<Vec<u8>> = Vec::new();
        let mut stored: Vec<u8> = Vec::new();
        std::mem::swap(&mut stored, &mut self.stored);
        let ghost kept = stored@;
        let ghost full = kept + data@;
        assert(views(messages@) =~= Seq::<Seq<u8>>::empty());
        if stored.len() == 0 {
            assert(full =~= data@);
            let leftover = split_frames(data, &mut messages);
            proof {
                lemma_frames_rest_pending(data@);
            }
            self.stored = leftover;
            return messages;
        }
        let mut start: usize = 0;
        if stored.len() < PADDING {
            let missing = PADDING - stored.len();
            if data.len() >= missing {
                append_range(&mut stored, data, 0, missing);
                start = missing;
                proof {
                    lemma_header_prefix(stored@, data@.subrange(missing as int, data@.len() as int));
                    assert(stored@ + data@.subrange(missing as int, data@.len() as int) =~= full);
                }
            } else {
                append_range(&mut stored, data, 0, data.len());
                assert(stored@ =~= full);
                self.stored = stored;
                return messages;
            }
        } else {
            proof {
                lemma_header_prefix(kept, data@);
            }
        }
        // The header is complete: `stored` holds `full[..stored.len()]`.
        assert(stored@ + data@.subrange(start as int, data@.len() as int) =~= full);
        let size = decode_size(stored.as_slice()).unwrap();
        let already = stored.len() - PADDING;
        let needed = size - already;
        if data.len() - start < needed {
            append_range(&mut stored, data, start, data.len());
            assert(stored@ =~= full);
            self.stored = stored;
            return messages;
        }
        let end = start + needed;
        append_range(&mut stored, data, start, end);
        let message = copy_range(stored.as_slice(), PADDING, stored.len());
        messages.push(message);
        proof {
            assert(full.subrange(PADDING as int, PADDING + size) =~= message@);
            assert(full.subrange(PADDING + size, full.len() as int) =~= data@.subrange(
                end as int,
                data@.len() as int,
            ));
            assert(views(messages@) =~= seq![message@]);
        }
        let leftover = split_frames(&data[end..data.len()], &mut messages);
        proof {
            lemma_frames_rest_pending(data@.subrange(end as int, data@.len() as int));
        }
        self.stored = leftover;
        messages
    }
}

} // verus!
