//! Variable-size framing: every message is preceded by its length encoded as
//! a varint (seven bits per byte, least significant group first, the high bit
//! of a byte telling that more bytes follow).
use vstd::prelude::*;
use vstd::slice::slice_subrange;
use crate::util::bytes::{views, copy_range, append_range};
use integer_encoding::VarInt;

verus! {

/// This is the max required bytes to encode a u64 using the varint encoding scheme.
/// It is size 10=ceil(64/7)
pub const MAX_ENCODED_SIZE: usize = 10;

/// The varint bytes of `v`: seven bits per byte, the least significant group
/// first, the high bit set on every byte but the last.
pub open spec fn varint_bytes(v: nat) -> Seq<u8>
    decreases v,
{
    if v < 128 {
        seq![v as u8]
    } else {
        seq![(v % 128 + 128) as u8] + varint_bytes(v / 128)
    }
}

/// Reads a varint at the start of `s`, looking at `budget` bytes at most:
/// the value and the number of bytes read, or `None` when none of those bytes
/// ends the varint.
pub open spec fn varint_parse(s: Seq<u8>, budget: nat) -> Option<(nat, nat)>
    decreases budget,
{
    if budget == 0 || s.len() == 0 {
        None
    } else if s[0] < 128 {
        Some((s[0] as nat, 1))
    } else {
        match varint_parse(s.drop_first(), (budget - 1) as nat) {
            Some((v, n)) => Some((((s[0] - 128) + 128 * v) as nat, n + 1)),
            None => None,
        }
    }
}

/// The result of `integer_encoding`'s `usize::decode_var` on `s`: a varint of
/// ten bytes at most, its value kept modulo 2^64 and then as a `usize`.
pub open spec fn spec_decode_var(s: Seq<u8>) -> Option<(usize, usize)> {
    match varint_parse(s, MAX_ENCODED_SIZE as nat) {
        Some((v, n)) => Some(((v % 0x1_0000_0000_0000_0000) as usize, n as usize)),
        None => None,
    }
}

/// The frame of one message.
pub open spec fn encode_frame(message: Seq<u8>) -> Seq<u8> {
    varint_bytes(message.len()) + message
}

/// The frames of several messages, one after the other.
pub open spec fn encode_all(messages: Seq<Seq<u8>>) -> Seq<u8>
    decreases messages.len(),
{
    if messages.len() == 0 {
        Seq::empty()
    } else {
        encode_frame(messages[0]) + encode_all(messages.drop_first())
    }
}

/// Splits a byte stream into the complete messages at its start and the
/// bytes after the last complete frame.
pub open spec fn frames(s: Seq<u8>) -> (Seq<Seq<u8>>, Seq<u8>)
    decreases s.len(),
{
    match spec_decode_var(s) {
        Some((size, used)) => {
            if 0 < used && used + size <= s.len() {
                let rest = frames(s.subrange(used + size, s.len() as int));
                (seq![s.subrange(used as int, used + size)] + rest.0, rest.1)
            } else {
                (Seq::empty(), s)
            }
        },
        None => (Seq::empty(), s),
    }
}

/// The bytes a decoder can keep: a header with part of its message, or the
/// start of a header that is not longer than a header can be.
pub open spec fn can_keep(s: Seq<u8>) -> bool {
    match spec_decode_var(s) {
        Some((size, used)) => s.len() < used + size,
        None => s.len() <= MAX_ENCODED_SIZE,
    }
}

/// The inputs on which completing a kept header from `data` would count
/// more message bytes than the header announces (a header with needless
/// trailing zero groups).
pub open spec fn overlong_header(stored: Seq<u8>, data: Seq<u8>) -> bool {
    let full = stored + data;
    let pulled = if full.len() < MAX_ENCODED_SIZE { full.len() as int } else { MAX_ENCODED_SIZE as int };
    &&& stored.len() > 0
    &&& spec_decode_var(stored) is None
    &&& spec_decode_var(full) matches Some((size, used)) && pulled > used + size
}

/// What one call of [`Decoder::decode`] gives: the messages completed by
/// `data` after the `stored` bytes, and the bytes kept for later.
/// When kept bytes are followed by more than ten bytes none of which ends the
/// header, only the first ten bytes are kept.
pub open spec fn decode_step(stored: Seq<u8>, data: Seq<u8>) -> (Seq<Seq<u8>>, Seq<u8>) {
    let full = stored + data;
    if stored.len() > 0 && spec_decode_var(full) is None && full.len() > MAX_ENCODED_SIZE {
        (Seq::empty(), full.take(MAX_ENCODED_SIZE as int))
    } else {
        frames(full)
    }
}

/// Successive calls of [`Decoder::decode`] with the given chunks.
pub open spec fn decode_run(stored: Seq<u8>, chunks: Seq<Seq<u8>>) -> (Seq<Seq<u8>>, Seq<u8>)
    decreases chunks.len(),
{
    if chunks.len() == 0 {
        (Seq::empty(), stored)
    } else {
        let first = decode_step(stored, chunks[0]);
        let rest = decode_run(first.1, chunks.drop_first());
        (first.0 + rest.0, rest.1)
    }
}

/// Every call of a run of [`Decoder::decode`] with the given chunks is made
/// on an input that it accepts.
pub open spec fn decode_run_accepted(stored: Seq<u8>, chunks: Seq<Seq<u8>>) -> bool
    decreases chunks.len(),
{
    if chunks.len() == 0 {
        true
    } else {
        &&& can_keep(stored)
        &&& !overlong_header(stored, chunks[0])
        &&& decode_run_accepted(decode_step(stored, chunks[0]).1, chunks.drop_first())
    }
}

spec fn pow128(n: nat) -> nat
    decreases n,
{
    if n == 0 {
        1
    } else {
        128 * pow128((n - 1) as nat)
    }
}

proof fn lemma_parse_bounds(s: Seq<u8>, budget: nat)
    ensures
        varint_parse(s, budget) matches Some((v, n)) ==> 1 <= n <= budget && n <= s.len(),
    decreases budget,
{
    if budget > 0 && s.len() > 0 && s[0] >= 128 {
        lemma_parse_bounds(s.drop_first(), (budget - 1) as nat);
    }
}

/// The varint at the start of `s` depends only on the bytes it spans.
proof fn lemma_parse_prefix(s: Seq<u8>, t: Seq<u8>, budget: nat)
    requires
        varint_parse(s, budget) is Some,
        t.len() >= varint_parse(s, budget).unwrap().1,
        t.take(varint_parse(s, budget).unwrap().1 as int) == s.take(
            varint_parse(s, budget).unwrap().1 as int,
        ),
    ensures
        varint_parse(t, budget) == varint_parse(s, budget),
    decreases budget,
{
    let n = varint_parse(s, budget).unwrap().1;
    lemma_parse_bounds(s, budget);
    assert(t[0] == t.take(n as int)[0]);
    assert(s[0] == s.take(n as int)[0]);
    if s[0] >= 128 {
        let s1 = s.drop_first();
        let t1 = t.drop_first();
        let n1 = varint_parse(s1, (budget - 1) as nat).unwrap().1;
        assert(t1.take(n1 as int) =~= s1.take(n1 as int)) by {
            assert forall|i: int| 0 <= i < n1 implies t1.take(n1 as int)[i] == s1.take(
                n1 as int,
            )[i] by {
                assert(t.take(n as int)[i + 1] == s.take(n as int)[i + 1]);
            }
        }
        lemma_parse_prefix(s1, t1, (budget - 1) as nat);
    }
}

proof fn lemma_varint_bytes_parse(v: nat, rest: Seq<u8>, budget: nat)
    requires
        varint_bytes(v).len() <= budget,
    ensures
        varint_parse(varint_bytes(v) + rest, budget) == Some((v, varint_bytes(v).len())),
    decreases v,
{
    let s = varint_bytes(v) + rest;
    if v < 128 {
        assert(s[0] == v as u8);
    } else {
        let tail = varint_bytes(v / 128);
        assert(s[0] == (v % 128 + 128) as u8);
        assert(s.drop_first() =~= tail + rest);
        lemma_varint_bytes_parse(v / 128, rest, (budget - 1) as nat);
        assert(v == v % 128 + 128 * (v / 128));
    }
}

proof fn lemma_varint_bytes_shape(v: nat)
    ensures
        varint_bytes(v).len() >= 1,
        varint_bytes(v).len() == 1 <==> v < 128,
        varint_bytes(v)[0] < 128 <==> v < 128,
    decreases v,
{
    if v >= 128 {
        lemma_varint_bytes_shape(v / 128);
    }
}

proof fn lemma_varint_bytes_len_bound(v: nat, n: nat)
    requires
        n >= 1,
        v < pow128(n),
    ensures
        varint_bytes(v).len() <= n,
    decreases v,
{
    if v >= 128 {
        assert(n >= 2) by {
            if n == 1 {
                assert(pow128(1) == 128 * pow128(0));
            }
        }
        let p = pow128((n - 1) as nat);
        assert(pow128(n) == 128 * p);
        assert(v / 128 < p) by (nonlinear_arith)
            requires
                v < 128 * p,
        ;
        lemma_varint_bytes_len_bound(v / 128, (n - 1) as nat);
    }
}

/// A length that fits in a `usize` takes ten bytes at most.
pub proof fn lemma_varint_bytes_fit(v: nat)
    requires
        v <= usize::MAX,
    ensures
        1 <= varint_bytes(v).len() <= MAX_ENCODED_SIZE,
{
    reveal_with_fuel(pow128, 11);
    assert(pow128(10) == 1180591620717411303424nat);
    lemma_varint_bytes_len_bound(v, 10);
    lemma_varint_bytes_shape(v);
}

/// Decoding the varint bytes of a length, followed by anything, gives the
/// length back and the number of its bytes.
pub proof fn lemma_decode_var_roundtrip(v: nat, rest: Seq<u8>)
    requires
        v <= usize::MAX,
    ensures
        spec_decode_var(varint_bytes(v) + rest) == Some((v as usize, varint_bytes(v).len() as usize)),
        1 <= varint_bytes(v).len() <= MAX_ENCODED_SIZE,
{
    lemma_varint_bytes_fit(v);
    lemma_varint_bytes_parse(v, rest, MAX_ENCODED_SIZE as nat);
    assert(v < 0x1_0000_0000_0000_0000);
}

proof fn lemma_decode_var_prefix(s: Seq<u8>, t: Seq<u8>)
    requires
        spec_decode_var(s) is Some,
        t.len() >= spec_decode_var(s).unwrap().1,
        t.take(spec_decode_var(s).unwrap().1 as int) == s.take(
            spec_decode_var(s).unwrap().1 as int,
        ),
    ensures
        spec_decode_var(t) == spec_decode_var(s),
        1 <= spec_decode_var(s).unwrap().1 <= MAX_ENCODED_SIZE,
{
    lemma_parse_bounds(s, MAX_ENCODED_SIZE as nat);
    lemma_parse_prefix(s, t, MAX_ENCODED_SIZE as nat);
}

proof fn lemma_decode_var_append(a: Seq<u8>, b: Seq<u8>)
    requires
        spec_decode_var(a) is Some,
    ensures
        spec_decode_var(a + b) == spec_decode_var(a),
        1 <= spec_decode_var(a).unwrap().1 <= a.len(),
        spec_decode_var(a).unwrap().1 <= MAX_ENCODED_SIZE,
{
    lemma_parse_bounds(a, MAX_ENCODED_SIZE as nat);
    let n = spec_decode_var(a).unwrap().1;
    assert((a + b).take(n as int) =~= a.take(n as int));
    lemma_decode_var_prefix(a, a + b);
}

/// A header that decodes from a stream also decodes from every longer
/// prefix of that stream.
proof fn lemma_decode_var_take(s: Seq<u8>, k: int)
    requires
        spec_decode_var(s) is Some,
        spec_decode_var(s).unwrap().1 <= k <= s.len(),
    ensures
        spec_decode_var(s.take(k)) == spec_decode_var(s),
{
    lemma_parse_bounds(s, MAX_ENCODED_SIZE as nat);
    let n = spec_decode_var(s).unwrap().1;
    assert(s.take(k).take(n as int) =~= s.take(n as int));
    lemma_decode_var_prefix(s, s.take(k));
}

/// What is left after the complete frames of a stream holds no complete
/// frame of its own.
pub proof fn lemma_frames_rest_stable(s: Seq<u8>)
    ensures
        frames(frames(s).1) == (Seq::<Seq<u8>>::empty(), frames(s).1),
    decreases s.len(),
{
    match spec_decode_var(s) {
        Some((size, used)) => {
            if 0 < used && used + size <= s.len() {
                lemma_frames_rest_stable(s.subrange(used + size, s.len() as int));
            }
        },
        None => {},
    }
}

/// Splitting a stream in two: the frames of the whole are those of the first
/// part, followed by those of its leftover joined to the second part.
pub proof fn lemma_frames_append(a: Seq<u8>, b: Seq<u8>)
    ensures
        frames(a + b).0 == frames(a).0 + frames(frames(a).1 + b).0,
        frames(a + b).1 == frames(frames(a).1 + b).1,
    decreases a.len(),
{
    match spec_decode_var(a) {
        Some((size, used)) => {
            lemma_decode_var_append(a, b);
            if 0 < used && used + size <= a.len() {
                let k = used + size;
                let ra = a.subrange(k as int, a.len() as int);
                assert((a + b).subrange(k as int, (a + b).len() as int) =~= ra + b);
                assert((a + b).subrange(used as int, k as int) =~= a.subrange(
                    used as int,
                    k as int,
                ));
                lemma_frames_append(ra, b);
                assert(frames(a + b).0 =~= frames(a).0 + frames(frames(a).1 + b).0);
            }
        },
        None => {},
    }
}

/// Encoding then splitting gives the messages back and leaves nothing.
pub proof fn lemma_frames_encode_all(messages: Seq<Seq<u8>>)
    requires
        forall|i: int| 0 <= i < messages.len() ==> (#[trigger] messages[i]).len() <= usize::MAX,
    ensures
        frames(encode_all(messages)) == (messages, Seq::<u8>::empty()),
    decreases messages.len(),
{
    if messages.len() == 0 {
        assert(encode_all(messages) =~= Seq::<u8>::empty());
        assert(spec_decode_var(Seq::<u8>::empty()) is None);
    } else {
        let m = messages[0];
        let rest = messages.drop_first();
        assert forall|i: int| 0 <= i < rest.len() implies (#[trigger] rest[i]).len()
            <= usize::MAX by {
            assert(rest[i] == messages[i + 1]);
        }
        lemma_frames_encode_all(rest);
        let s = encode_all(messages);
        let h = varint_bytes(m.len());
        assert(s =~= h + (m + encode_all(rest)));
        lemma_decode_var_roundtrip(m.len(), m + encode_all(rest));
        let k = h.len() + m.len();
        assert(s.subrange(h.len() as int, k as int) =~= m);
        assert(s.subrange(k as int, s.len() as int) =~= encode_all(rest));
        assert(frames(s).0 =~= messages);
    }
}

/// The messages completed at the front of a prefix of an encoded stream are
/// the first messages of that stream, and the rest of the stream is the
/// encoding of the others.
proof fn lemma_frames_of_prefix(full: Seq<u8>, tail: Seq<u8>, messages: Seq<Seq<u8>>)
    requires
        full + tail == encode_all(messages),
        forall|i: int| 0 <= i < messages.len() ==> (#[trigger] messages[i]).len() <= usize::MAX,
    ensures
        frames(full).0.len() <= messages.len(),
        frames(full).0 == messages.take(frames(full).0.len() as int),
        frames(full).1 + tail == encode_all(messages.skip(frames(full).0.len() as int)),
    decreases full.len(),
{
    let x = full + tail;
    match spec_decode_var(full) {
        Some((size, used)) => {
            if 0 < used && used + size <= full.len() {
                assert(messages.len() > 0) by {
                    if messages.len() == 0 {
                        assert(x.len() == 0);
                    }
                }
                let m = messages[0];
                let others = messages.drop_first();
                let h = varint_bytes(m.len());
                assert(x =~= h + (m + encode_all(others)));
                lemma_decode_var_append(full, tail);
                lemma_decode_var_roundtrip(m.len(), m + encode_all(others));
                assert(size == m.len());
                assert(used == h.len());
                let k = used + size;
                let rest = full.subrange(k as int, full.len() as int);
                assert(full.subrange(used as int, k as int) =~= m) by {
                    assert forall|i: int| 0 <= i < m.len() implies full.subrange(
                        used as int,
                        k as int,
                    )[i] == m[i] by {
                        assert(full[used + i] == x[used + i]);
                        assert(x[used + i] == (m + encode_all(others))[i]);
                    }
                }
                assert(rest + tail =~= encode_all(others)) by {
                    assert(rest + tail =~= x.subrange(k as int, x.len() as int));
                    assert(x.subrange(k as int, x.len() as int) =~= encode_all(others));
                }
                assert forall|i: int| 0 <= i < others.len() implies (#[trigger] others[i]).len()
                    <= usize::MAX by {
                    assert(others[i] == messages[i + 1]);
                }
                lemma_frames_of_prefix(rest, tail, others);
                let n = frames(rest).0.len() as int;
                assert(frames(full).0 =~= messages.take(n + 1));
                assert(others.skip(n) =~= messages.skip(n + 1));
            } else {
                assert(messages.take(0) =~= Seq::<Seq<u8>>::empty());
                assert(messages.skip(0) =~= messages);
            }
        },
        None => {
            assert(messages.take(0) =~= Seq::<Seq<u8>>::empty());
            assert(messages.skip(0) =~= messages);
        },
    }
}

/// On a prefix of an encoded stream whose kept part holds no complete frame,
/// a step is accepted and agrees with the frames of what was kept joined to
/// the new data.
proof fn lemma_step_on_encoded(
    stored: Seq<u8>,
    data: Seq<u8>,
    tail: Seq<u8>,
    messages: Seq<Seq<u8>>,
)
    requires
        stored + data + tail == encode_all(messages),
        frames(stored) == (Seq::<Seq<u8>>::empty(), stored),
        forall|i: int| 0 <= i < messages.len() ==> (#[trigger] messages[i]).len() <= usize::MAX,
    ensures
        can_keep(stored),
        !overlong_header(stored, data),
        decode_step(stored, data) == frames(stored + data),
{
    let full = stored + data;
    let x = full + tail;
    if messages.len() == 0 {
        assert(x.len() == 0);
        assert(stored =~= Seq::<u8>::empty());
        assert(full =~= Seq::<u8>::empty());
        assert(spec_decode_var(stored) is None);
    } else {
        let m = messages[0];
        let h = varint_bytes(m.len());
        assert(x =~= h + (m + encode_all(messages.drop_first())));
        lemma_decode_var_roundtrip(m.len(), m + encode_all(messages.drop_first()));
        lemma_varint_bytes_shape(m.len());
        lemma_varint_bytes_fit(m.len());
        let n = h.len() as int;
        // Any prefix of the stream at least as long as the header decodes it.
        assert forall|p: Seq<u8>, q: Seq<u8>| p + q == x && p.len() >= n implies spec_decode_var(
            p,
        ) == Some((m.len() as usize, n as usize)) by {
            assert(p.take(n) =~= x.take(n));
            lemma_decode_var_prefix(x, p);
        }
        // A shorter prefix does not decode.
        assert forall|p: Seq<u8>, q: Seq<u8>| p + q == x && p.len() < n implies spec_decode_var(
            p,
        ) is None by {
            if spec_decode_var(p) is Some {
                lemma_decode_var_append(p, q);
            }
        }
        assert(stored + (data + tail) =~= x);
        assert(full + tail =~= x);
        if stored.len() >= n {
            assert(spec_decode_var(stored) == Some((m.len() as usize, n as usize)));
        }
        if stored.len() > 0 && spec_decode_var(stored) is None {
            // The first byte of the kept part starts a header of two bytes or
            // more, so the message is at least 128 bytes long.
            assert(stored[0] == x[0]);
            assert(x[0] == h[0]);
            assert(m.len() >= 128);
        }
    }
}

/// Decoding the frames of messages, cut into chunks in any way, is accepted
/// at every call, gives back every message in order and keeps nothing at the
/// end.
pub proof fn lemma_decode_run_encoded(chunks: Seq<Seq<u8>>, messages: Seq<Seq<u8>>)
    requires
        chunks.flatten() == encode_all(messages),
        forall|i: int| 0 <= i < messages.len() ==> (#[trigger] messages[i]).len() <= usize::MAX,
    ensures
        decode_run_accepted(Seq::empty(), chunks),
        decode_run(Seq::empty(), chunks) == (messages, Seq::<u8>::empty()),
{
    assert(chunks.flatten() + Seq::<u8>::empty() =~= chunks.flatten());
    lemma_decode_run_prefix(chunks, Seq::empty(), messages);
    lemma_frames_encode_all(messages);
    assert(frames(chunks.flatten()) == (messages, Seq::<u8>::empty()));
}

/// Decoding chunks that make up a prefix of the frames of messages, cut in
/// any way: every call is accepted, the messages given back are the first
/// messages, in order, and the bytes kept are those of the frame that is not
/// complete yet: the stream is the frames of the messages given back followed
/// by the kept bytes, and the kept bytes followed by the rest of the stream
/// are the frames of the other messages.
pub proof fn lemma_decode_run_prefix(
    chunks: Seq<Seq<u8>>,
    tail: Seq<u8>,
    messages: Seq<Seq<u8>>,
)
    requires
        chunks.flatten() + tail == encode_all(messages),
        forall|i: int| 0 <= i < messages.len() ==> (#[trigger] messages[i]).len() <= usize::MAX,
    ensures
        decode_run_accepted(Seq::empty(), chunks),
        decode_run(Seq::empty(), chunks) == frames(chunks.flatten()),
        ({
            let (given, kept) = decode_run(Seq::empty(), chunks);
            &&& given.len() <= messages.len()
            &&& given == messages.take(given.len() as int)
            &&& kept + tail == encode_all(messages.skip(given.len() as int))
            &&& chunks.flatten() == encode_all(given) + kept
        }),
{
    let s = chunks.flatten();
    assert(Seq::<u8>::empty() + s =~= s);
    assert(spec_decode_var(Seq::<u8>::empty()) is None);
    lemma_decode_run_general(Seq::empty(), chunks, tail, messages);
    lemma_frames_of_prefix(s, tail, messages);
    let n = frames(s).0.len() as int;
    lemma_encode_all_split(messages, n);
    assert(encode_all(messages.take(n)) + (frames(s).1 + tail) =~= (encode_all(messages.take(n))
        + frames(s).1) + tail);
    assert(s =~= encode_all(messages.take(n)) + frames(s).1) by {
        let left = encode_all(messages.take(n)) + frames(s).1;
        assert(s + tail == left + tail);
        assert(s.len() == left.len());
        assert forall|i: int| 0 <= i < s.len() implies s[i] == left[i] by {
            assert((s + tail)[i] == (left + tail)[i]);
        }
    }
}

/// The frames of messages are those of the first `n` followed by those of the
/// others.
proof fn lemma_encode_all_split(messages: Seq<Seq<u8>>, n: int)
    requires
        0 <= n <= messages.len(),
    ensures
        encode_all(messages) == encode_all(messages.take(n)) + encode_all(messages.skip(n)),
    decreases n,
{
    if n == 0 {
        assert(messages.take(0) =~= Seq::<Seq<u8>>::empty());
        assert(messages.skip(0) =~= messages);
        assert(encode_all(messages.take(0)) =~= Seq::<u8>::empty());
        assert(encode_all(messages) =~= Seq::<u8>::empty() + encode_all(messages));
    } else {
        let rest = messages.drop_first();
        lemma_encode_all_split(rest, n - 1);
        assert(messages.take(n).drop_first() =~= rest.take(n - 1));
        assert(messages.take(n)[0] == messages[0]);
        assert(rest.skip(n - 1) =~= messages.skip(n));
        assert(encode_all(messages) =~= encode_all(messages.take(n)) + encode_all(
            messages.skip(n),
        ));
    }
}

proof fn lemma_decode_run_general(
    stored: Seq<u8>,
    chunks: Seq<Seq<u8>>,
    tail: Seq<u8>,
    messages: Seq<Seq<u8>>,
)
    requires
        stored + chunks.flatten() + tail == encode_all(messages),
        frames(stored) == (Seq::<Seq<u8>>::empty(), stored),
        forall|i: int| 0 <= i < messages.len() ==> (#[trigger] messages[i]).len() <= usize::MAX,
    ensures
        decode_run_accepted(stored, chunks),
        decode_run(stored, chunks) == frames(stored + chunks.flatten()),
    decreases chunks.len(),
{
    if chunks.len() == 0 {
        assert(stored + chunks.flatten() =~= stored);
    } else {
        let c = chunks[0];
        let cs = chunks.drop_first();
        let later = cs.flatten() + tail;
        assert(chunks.flatten() =~= c + cs.flatten());
        assert(stored + c + later =~= encode_all(messages));
        lemma_step_on_encoded(stored, c, later, messages);
        let full = stored + c;
        lemma_frames_of_prefix(full, later, messages);
        let m1 = frames(full).0;
        let s1 = frames(full).1;
        let rest_msgs = messages.skip(m1.len() as int);
        assert forall|i: int| 0 <= i < rest_msgs.len() implies (#[trigger] rest_msgs[i]).len()
            <= usize::MAX by {
            assert(rest_msgs[i] == messages[i + m1.len()]);
        }
        assert(s1 + cs.flatten() + tail =~= s1 + later);
        lemma_frames_rest_stable(full);
        lemma_decode_run_general(s1, cs, tail, rest_msgs);
        lemma_frames_append(full, cs.flatten());
        assert(stored + chunks.flatten() =~= full + cs.flatten());
    }
}

/// The number of bytes read by a decoded varint is at least one, at most ten,
/// and at most the length of the input.
pub proof fn lemma_decode_var_bounds(s: Seq<u8>)
    ensures
        spec_decode_var(s) matches Some((v, n)) ==> 1 <= n <= MAX_ENCODED_SIZE && n <= s.len(),
{
    lemma_parse_bounds(s, MAX_ENCODED_SIZE as nat);
}

/// Calls `integer_encoding`'s `usize::decode_var`: it reads a varint of ten
/// bytes at most from the start of `data` and returns its value (modulo 2^64,
/// then as a `usize`) with the number of bytes read, or `None` when none of
/// the first ten bytes ends the varint.
#[verifier::external_body]
fn decode_var_usize(data: &[u8]) -> (decoded: Option<(usize, usize)>)
    ensures
        decoded == spec_decode_var(data@),
{
    usize::decode_var(data)
}

/// Calls `integer_encoding`'s `usize::encode_var` on a ten-byte buffer: it
/// writes the varint bytes of `value` at the start of `buf` and returns their
/// number.
#[verifier::external_body]
fn encode_var_usize(value: usize, buf: &mut [u8; MAX_ENCODED_SIZE]) -> (written: usize)
    ensures
        written == varint_bytes(value as nat).len(),
        written <= final(buf)@.len(),
        final(buf)@.subrange(0, written as int) == varint_bytes(value as nat),
{
    value.encode_var(buf)
}

/// Encodes a message, returning the bytes that must be sent before the message.
/// A buffer is used to avoid heap allocation.
pub fn encode_size<'a>(message: &[u8], buf: &'a mut [u8; MAX_ENCODED_SIZE]) -> (header: &'a [u8])
    ensures
        header@ == varint_bytes(message@.len()),
{
    let written = encode_var_usize(message.len(), buf);
    let filled: &'a [u8; MAX_ENCODED_SIZE] = buf;
    slice_subrange(filled.as_slice(), 0, written)
}

/// Decodes an encoded value in a buffer.
/// Returns the message size and the consumed bytes, or `None` if the buffer
/// does not hold a whole size.
pub fn decode_size(data: &[u8]) -> (decoded: Option<(usize, usize)>)
    ensures
        decoded == spec_decode_var(data@),
{
    decode_var_usize(data)
}

/// Pushes every complete frame of `data` into `messages` and returns the
/// bytes after the last complete frame.
fn split_frames(data: &[u8], messages: &mut Vec<Vec<u8>>) -> (leftover: Vec<u8>)
    ensures
        views(final(messages)@) == views(old(messages)@) + frames(data@).0,
        leftover@ == frames(data@).1,
{
    let ghost d = data@;
    let mut pos: usize = 0;
    assert(d.subrange(0, d.len() as int) =~= d);
    loop
        invariant
            pos <= data@.len(),
            d == data@,
            views(messages@) + frames(d.subrange(pos as int, d.len() as int)).0 == views(
                old(messages)@,
            ) + frames(d).0,
            frames(d.subrange(pos as int, d.len() as int)).1 == frames(d).1,
        decreases data@.len() - pos,
    {
        let ghost rest = d.subrange(pos as int, d.len() as int);
        let decoded = decode_size(&data[pos..data.len()]);
        proof {
            lemma_decode_var_bounds(rest);
        }
        if let Some((size, used)) = decoded {
            if data.len() - pos - used >= size {
                let start = pos + used;
                let end = start + size;
                let message = copy_range(data, start, end);
                let ghost before = views(messages@);
                messages.push(message);
                assert(views(messages@) =~= before.push(message@));
                assert(rest.subrange(used as int, used + size) =~= message@);
                assert(rest.subrange(used + size, rest.len() as int) =~= d.subrange(
                    end as int,
                    d.len() as int,
                ));
                pos = end;
                continue;
            }
        }
        return copy_range(data, pos, data.len());
    }
}

/// Used to decode messages from several/partial data chunks.
pub struct Decoder {
    stored: Vec<u8>,
}

impl View for Decoder {
    type V = Seq<u8>;

    /// The bytes kept from earlier chunks.
    closed spec fn view(&self) -> Seq<u8> {
        self.stored@
    }
}

impl Default for Decoder {
    /// Creates a new decoder.
    /// It will only reserve memory in cases where decoding needs to keep data among messages.
    fn default() -> (decoder: Decoder)
        ensures
            decoder@ == Seq::<u8>::empty(),
    {
        Decoder { stored: Vec::new() }
    }
}

impl Decoder {
    /// Tells if [`Decoder::decode`] accepts `data` in the current state: the
    /// kept bytes are not an overlong header start, and `data` does not
    /// complete a header that announces fewer bytes than were already taken in.
    pub fn accepts(&self, data: &[u8]) -> (accepted: bool)
        ensures
            accepted == (can_keep(self@) && !overlong_header(self@, data@)),
    {
        let ghost full = self.stored@ + data@;
        let kept = decode_size(self.stored.as_slice());
        proof {
            lemma_decode_var_bounds(self.stored@);
        }
        let keepable = match kept {
            Some((size, used)) => self.stored.len() - used < size,
            None => self.stored.len() <= MAX_ENCODED_SIZE,
        };
        if !keepable {
            return false;
        }
        if self.stored.len() == 0 || kept.is_some() {
            return true;
        }
        // Only the first bytes of the joined input can hold the header.
        let mut head: Vec<u8> = Vec::new();
        append_range(&mut head, self.stored.as_slice(), 0, self.stored.len());
        let mut pulled = MAX_ENCODED_SIZE - self.stored.len();
        if data.len() < pulled {
            pulled = data.len();
        }
        append_range(&mut head, data, 0, pulled);
        proof {
            assert(head@ =~= full.take(head@.len() as int));
            if spec_decode_var(full) is Some {
                lemma_decode_var_bounds(full);
                lemma_decode_var_take(full, head@.len() as int);
            }
            if spec_decode_var(head@) is Some {
                assert(full =~= head@ + full.skip(head@.len() as int));
                lemma_decode_var_append(head@, full.skip(head@.len() as int));
            }
        }
        match decode_size(head.as_slice()) {
            Some((size, used)) => head.len() - used <= size,
            None => true,
        }
    }

    /// Returns the bytes len stored in this decoder.
    /// It can include both, the padding bytes and the data message bytes.
    /// After decoding a message, its bytes are removed from the decoder.
    pub fn stored_size(&self) -> (size: usize)
        ensures
            size == self@.len(),
    {
        self.stored.len()
    }

    /// Decodes as many messages as `data`, after the bytes kept from earlier
    /// calls, completes; they are returned in order.
    /// If `data` is not enough to complete a message, the data will be stored
    /// until more data comes in successive calls.
    pub fn decode(&mut self, data: &[u8]) -> (messages: Vec<Vec<u8>>)
        requires
            can_keep(old(self)@),
            !overlong_header(old(self)@, data@),
        ensures
            views(messages@) == decode_step(old(self)@, data@).0,
            final(self)@ == decode_step(old(self)@, data@).1,
    {
        let mut messages: Vec<Vec<u8>> = Vec::new();
        let ghost kept = self.stored@;
        let ghost full = kept + data@;
        assert(views(messages@) =~= Seq::<Seq<u8>>::empty());
        if self.stored.len() == 0 {
            assert(full =~= data@);
            let leftover = split_frames(data, &mut messages);
            self.stored = leftover;
            return messages;
        }
        let mut start: usize = 0;
        let kept_header = decode_size(self.stored.as_slice());
        proof {
            lemma_decode_var_bounds(kept);
        }
        let (size, used) = match kept_header {
            Some(info) => {
                proof {
                    lemma_decode_var_append(kept, data@);
                }
                info
            },
            None => {
                // We append at most the bytes that can still belong to the header.
                let mut pulled = MAX_ENCODED_SIZE - self.stored.len();
                if data.len() < pulled {
                    pulled = data.len();
                }
                append_range(&mut self.stored, data, 0, pulled);
                start = pulled;
                let ghost head = self.stored@;
                proof {
                    assert(head =~= full.take(head.len() as int));
                    assert(full =~= head + data@.subrange(pulled as int, data@.len() as int));
                    if spec_decode_var(full) is Some {
                        lemma_decode_var_bounds(full);
                        lemma_decode_var_take(full, head.len() as int);
                    }
                }
                match decode_size(self.stored.as_slice()) {
                    Some(info) => {
                        proof {
                            lemma_decode_var_append(
                                head,
                                data@.subrange(pulled as int, data@.len() as int),
                            );
                        }
                        info
                    },
                    None => {
                        // We still don't know the size.
                        assert(self.stored@ =~= decode_step(kept, data@).1);
                        return messages;
                    },
                }
            },
        };
        // The header is known: `stored` holds the first bytes of `full`.
        assert(self.stored@ + data@.subrange(start as int, data@.len() as int) =~= full);
        let already = self.stored.len() - used;
        let needed = size - already;
        if data.len() - start < needed {
            // We need more data to complete the message.
            append_range(&mut self.stored, data, start, data.len());
            assert(self.stored@ =~= full);
            return messages;
        }
        let end = start + needed;
        append_range(&mut self.stored, data, start, end);
        let message = copy_range(self.stored.as_slice(), used, self.stored.len());
        messages.push(message);
        proof {
            assert(full.subrange(used as int, used + size) =~= message@);
            assert(full.subrange(used + size, full.len() as int) =~= data@.subrange(
                end as int,
                data@.len() as int,
            ));
            assert(views(messages@) =~= seq![message@]);
        }
        let leftover = split_frames(slice_subrange(data, end, data.len()), &mut messages);
        self.stored = leftover;
        messages
    }
}

} // verus!
