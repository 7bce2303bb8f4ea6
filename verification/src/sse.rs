//! Wire framing for the event stream.
//!
//! The transport delivers an arbitrary sequence of byte chunks.  Frames are
//! delimited by a blank line, i.e. the two-byte marker `\n\n`; within a frame,
//! every line that starts with the prefix `data: ` contributes its trimmed
//! remainder to the frame's payload, and all other lines are ignored.  The
//! payload `[DONE]` is the end-of-stream sentinel.
//!
//! Everything here is defined over plain byte sequences, so the decoded
//! payloads depend only on the concatenation of the chunks, never on where
//! the chunk boundaries fall.

use vstd::prelude::*;

verus! {

/// Line feed, the only line separator of the wire format.
pub const LF: u8 = 10;

/// `b` holds the frame terminator `\n\n` at position `i`.
pub open spec fn marker_at(b: Seq<u8>, i: int) -> bool {
    0 <= i && i + 1 < b.len() && b[i] == LF && b[i + 1] == LF
}

/// Index of the first frame terminator in `b`, or `b.len()` if there is none.
pub open spec fn first_frame_end(b: Seq<u8>) -> nat
    decreases b.len(),
{
    if b.len() < 2 {
        b.len()
    } else if b[0] == LF && b[1] == LF {
        0
    } else {
        1 + first_frame_end(b.drop_first())
    }
}

/// `first_frame_end` returns the least index with the marker, or the length.
pub proof fn lemma_first_frame_end(b: Seq<u8>)
    ensures
        first_frame_end(b) <= b.len(),
        first_frame_end(b) < b.len() ==> marker_at(b, first_frame_end(b) as int),
        forall|j: int| 0 <= j < first_frame_end(b) ==> !marker_at(b, j),
    decreases b.len(),
{
    if b.len() < 2 {
    } else if b[0] == LF && b[1] == LF {
    } else {
        lemma_first_frame_end(b.drop_first());
        let e = first_frame_end(b.drop_first());
        assert(forall|j: int| 0 <= j < b.drop_first().len() ==> b.drop_first()[j] == b[j + 1]);
        if e < b.drop_first().len() {
            assert(marker_at(b, e + 1 as int));
        }
        assert forall|j: int| 0 <= j < first_frame_end(b) implies !marker_at(b, j) by {
            if j > 0 {
                assert(!marker_at(b.drop_first(), j - 1));
            }
        }
    }
}

/// A byte sequence that is exactly one frame: it ends with the terminator and
/// contains no earlier terminator.
pub open spec fn is_frame(f: Seq<u8>) -> bool {
    f.len() >= 2 && first_frame_end(f) == f.len() - 2
}

/// ASCII whitespace, the characters stripped from a payload segment.  The
/// trim set is deliberately ASCII-only: the wire segments are JSON text,
/// whose own whitespace is ASCII, and trimming at the byte level keeps the
/// framing a pure function of the bytes.  A multi-byte Unicode space
/// adjacent to a segment is kept, and then read as part of the payload.
pub open spec fn is_ws(c: u8) -> bool {
    c == 32 || c == 9 || c == 10 || c == 12 || c == 13
}

/// `l` with its leading ASCII whitespace removed.
pub open spec fn trim_start(l: Seq<u8>) -> Seq<u8>
    decreases l.len(),
{
    if l.len() > 0 && is_ws(l[0]) {
        trim_start(l.drop_first())
    } else {
        l
    }
}

/// `l` with its trailing ASCII whitespace removed.
pub open spec fn trim_end(l: Seq<u8>) -> Seq<u8>
    decreases l.len(),
{
    if l.len() > 0 && is_ws(l.last()) {
        trim_end(l.drop_last())
    } else {
        l
    }
}

/// `l` with whitespace removed from both ends.
pub open spec fn trim_bytes(l: Seq<u8>) -> Seq<u8> {
    trim_end(trim_start(l))
}

/// The line prefix that marks a payload-bearing line: the bytes of `data: `.
pub open spec fn data_prefix() -> Seq<u8> {
    seq![100u8, 97u8, 116u8, 97u8, 58u8, 32u8]
}

/// Whether a line carries part of the payload.
pub open spec fn is_data_line(l: Seq<u8>) -> bool {
    l.len() >= 6 && l.take(6) == data_prefix()
}

/// The payload contribution of one line: the trimmed remainder after the
/// `data: ` prefix, or nothing for a line without the prefix.
pub open spec fn line_payload(l: Seq<u8>) -> Seq<u8> {
    if is_data_line(l) {
        trim_bytes(l.skip(6))
    } else {
        Seq::empty()
    }
}

/// Index of the first line feed in `b`, or `b.len()` if there is none.
pub open spec fn first_lf(b: Seq<u8>) -> nat
    decreases b.len(),
{
    if b.len() == 0 {
        0
    } else if b[0] == LF {
        0
    } else {
        1 + first_lf(b.drop_first())
    }
}

/// `first_lf` returns the least index holding a line feed, or the length.
pub proof fn lemma_first_lf(b: Seq<u8>)
    ensures
        first_lf(b) <= b.len(),
        first_lf(b) < b.len() ==> b[first_lf(b) as int] == LF,
        forall|j: int| 0 <= j < first_lf(b) ==> b[j] != LF,
    decreases b.len(),
{
    if b.len() == 0 {
    } else if b[0] == LF {
    } else {
        lemma_first_lf(b.drop_first());
        assert(forall|j: int| 0 <= j < b.drop_first().len() ==> b.drop_first()[j] == b[j + 1]);
        assert forall|j: int| 0 <= j < first_lf(b) implies b[j] != LF by {
            if j > 0 {
                assert(b.drop_first()[j - 1] != LF);
            }
        }
    }
}

/// The payload of a frame: the concatenation, in line order, of the trimmed
/// `data: ` segments of its lines, with no separator inserted.
pub open spec fn payload_of(b: Seq<u8>) -> Seq<u8>
    decreases b.len(),
{
    let i = first_lf(b);
    if i < b.len() {
        line_payload(b.take(i as int)) + payload_of(b.skip(i + 1 as int))
    } else {
        line_payload(b)
    }
}

/// The end-of-stream sentinel payload: the bytes of `[DONE]`.
pub open spec fn sentinel() -> Seq<u8> {
    seq![91u8, 68u8, 79u8, 78u8, 69u8, 93u8]
}

/// The sequence of event payloads a whole byte stream yields: the non-empty
/// payloads of its complete frames, in frame order, up to the first sentinel.
/// Empty payloads (keep-alive frames) are skipped, and nothing after the
/// sentinel is yielded.
pub open spec fn stream_payloads(b: Seq<u8>) -> Seq<Seq<u8>>
    decreases b.len(),
{
    let e = first_frame_end(b);
    if e + 2 <= b.len() {
        let p = payload_of(b.take(e + 2 as int));
        let rest = b.skip(e + 2 as int);
        if p == sentinel() {
            Seq::empty()
        } else if p.len() == 0 {
            stream_payloads(rest)
        } else {
            seq![p] + stream_payloads(rest)
        }
    } else {
        Seq::empty()
    }
}

/// Whether the stream's complete frames reach the sentinel within `b`.
pub open spec fn stream_completed(b: Seq<u8>) -> bool
    decreases b.len(),
{
    let e = first_frame_end(b);
    if e + 2 <= b.len() {
        let p = payload_of(b.take(e + 2 as int));
        p == sentinel() || stream_completed(b.skip(e + 2 as int))
    } else {
        false
    }
}

/// Payload reassembly is exact, order-preserving, and separator-free: a
/// frame that starts with one complete line contributes that line's payload
/// first, immediately followed by the payload of the remaining lines, with
/// nothing inserted between them.
pub proof fn lemma_payload_line_step(l: Seq<u8>, r: Seq<u8>)
    requires
        forall|j: int| 0 <= j < l.len() ==> l[j] != LF,
    ensures
        payload_of(l + seq![LF] + r) == line_payload(l) + payload_of(r),
{
    let b = l + seq![LF] + r;
    lemma_first_lf_is(b, l.len() as int);
    assert(b.take(l.len() as int) =~= l);
    assert(b.skip(l.len() + 1 as int) =~= r);
}

/// A marker with nothing before it pins `first_frame_end` down.
pub proof fn lemma_first_frame_end_is(b: Seq<u8>, i: int)
    requires
        marker_at(b, i),
        forall|j: int| 0 <= j < i ==> !marker_at(b, j),
    ensures
        first_frame_end(b) == i,
{
    lemma_first_frame_end(b);
    let e = first_frame_end(b) as int;
    if e < i {
        assert(marker_at(b, e));
        assert(false);
    } else if e > i {
        assert(!marker_at(b, i));
        assert(false);
    }
}

/// Without any marker, `first_frame_end` is the length.
pub proof fn lemma_first_frame_end_none(b: Seq<u8>)
    requires
        forall|j: int| !marker_at(b, j),
    ensures
        first_frame_end(b) == b.len(),
{
    lemma_first_frame_end(b);
    if first_frame_end(b) < b.len() {
        assert(marker_at(b, first_frame_end(b) as int));
        assert(false);
    }
}

/// A line feed with none before it pins `first_lf` down.
pub proof fn lemma_first_lf_is(b: Seq<u8>, i: int)
    requires
        0 <= i < b.len(),
        b[i] == LF,
        forall|j: int| 0 <= j < i ==> b[j] != LF,
    ensures
        first_lf(b) == i,
{
    lemma_first_lf(b);
    let e = first_lf(b) as int;
    if e < i {
        assert(b[e] == LF);
        assert(false);
    } else if e > i {
        assert(b[i] != LF);
        assert(false);
    }
}

/// Without any line feed, `first_lf` is the length.
pub proof fn lemma_first_lf_none(b: Seq<u8>)
    requires
        forall|j: int| 0 <= j < b.len() ==> b[j] != LF,
    ensures
        first_lf(b) == b.len(),
{
    lemma_first_lf(b);
    if first_lf(b) < b.len() {
        assert(b[first_lf(b) as int] == LF);
        assert(false);
    }
}

/// Dropping leading whitespace one byte at a time lands at the first
/// non-whitespace index.
pub proof fn lemma_trim_start_eq(l: Seq<u8>, k: int)
    requires
        0 <= k <= l.len(),
        forall|j: int| 0 <= j < k ==> is_ws(l[j]),
        k < l.len() ==> !is_ws(l[k]),
    ensures
        trim_start(l) == l.skip(k),
    decreases k,
{
    if k == 0 {
        assert(l.skip(0) =~= l);
    } else {
        assert(is_ws(l[0]));
        lemma_trim_start_eq(l.drop_first(), k - 1);
        assert(l.drop_first().skip(k - 1) =~= l.skip(k));
    }
}

/// Dropping trailing whitespace one byte at a time lands just after the last
/// non-whitespace index.
pub proof fn lemma_trim_end_eq(l: Seq<u8>, k: int)
    requires
        0 <= k <= l.len(),
        forall|j: int| k <= j < l.len() ==> is_ws(l[j]),
        k > 0 ==> !is_ws(l[k - 1]),
    ensures
        trim_end(l) == l.take(k),
    decreases l.len(),
{
    if l.len() > k {
        assert(is_ws(l.last()));
        lemma_trim_end_eq(l.drop_last(), k);
        assert(l.drop_last().take(k) =~= l.take(k));
    } else {
        if l.len() > 0 && is_ws(l.last()) {
            assert(!is_ws(l[k - 1]));
            assert(false);
        }
        assert(l.take(k) =~= l);
    }
}

/// ASCII whitespace test on one byte.
pub fn is_ws_byte(c: u8) -> (r: bool)
    ensures
        r == is_ws(c),
{
    c == 32 || c == 9 || c == 10 || c == 12 || c == 13
}

/// Finds the first frame terminator in `b`: the position of the first
/// `\n\n`, or `None` if no complete frame is buffered yet.
pub fn find_frame_marker(b: &[u8]) -> (r: Option<usize>)
    ensures
        match r {
            Some(i) => first_frame_end(b@) == i && i + 2 <= b@.len(),
            None => first_frame_end(b@) == b@.len(),
        },
{
    let n = b.len();
    if n < 2 {
        proof {
            lemma_first_frame_end_none(b@);
        }
        return None;
    }
    let mut i: usize = 0;
    while i < n - 1
        invariant
            i <= n,
            n == b@.len(),
            forall|j: int| 0 <= j < i ==> !marker_at(b@, j),
        decreases n - i,
    {
        if b[i] == 10 && b[i + 1] == 10 {
            proof {
                lemma_first_frame_end_is(b@, i as int);
            }
            return Some(i);
        }
        i = i + 1;
    }
    proof {
        lemma_first_frame_end_none(b@);
    }
    None
}

/// Appends the payload contribution of the line `frame[pos..j]` to `acc`.
fn append_line_payload(acc: &mut Vec<u8>, frame: &[u8], pos: usize, j: usize)
    requires
        pos <= j <= frame@.len(),
    ensures
        final(acc)@ == old(acc)@ + line_payload(frame@.subrange(pos as int, j as int)),
{
    let ghost line = frame@.subrange(pos as int, j as int);
    if j - pos >= 6 && frame[pos] == 100 && frame[pos + 1] == 97 && frame[pos + 2] == 116
        && frame[pos + 3] == 97 && frame[pos + 4] == 58 && frame[pos + 5] == 32 {
        proof {
            assert(line.take(6) =~= data_prefix());
        }
        let mut lo = pos + 6;
        while lo < j && is_ws_byte(frame[lo])
            invariant
                pos + 6 <= lo <= j,
                j <= frame@.len(),
                forall|k: int| pos + 6 <= k < lo ==> is_ws(frame@[k]),
            decreases j - lo,
        {
            lo = lo + 1;
        }
        let mut hi = j;
        while hi > lo && is_ws_byte(frame[hi - 1])
            invariant
                lo <= hi <= j,
                j <= frame@.len(),
                forall|k: int| hi <= k < j ==> is_ws(frame@[k]),
            decreases hi,
        {
            hi = hi - 1;
        }
        acc.extend_from_slice(&frame[lo..hi]);
        proof {
            let m = line.skip(6);
            assert(m =~= frame@.subrange(pos + 6, j as int));
            lemma_trim_start_eq(m, lo - (pos + 6));
            let s = m.skip(lo - (pos + 6));
            assert(s =~= frame@.subrange(lo as int, j as int));
            lemma_trim_end_eq(s, hi - lo);
            assert(line_payload(line) =~= frame@.subrange(lo as int, hi as int));
        }
    } else {
        proof {
            if line.len() >= 6 {
                assert(!is_data_line(line)) by {
                    if line.take(6) == data_prefix() {
                        assert(line.take(6)[0] == 100u8 && line.take(6)[1] == 97u8
                            && line.take(6)[2] == 116u8 && line.take(6)[3] == 97u8
                            && line.take(6)[4] == 58u8 && line.take(6)[5] == 32u8);
                        assert(false);
                    }
                }
            }
            assert(acc@ + line_payload(line) =~= acc@);
        }
    }
}

/// Extracts a frame's payload: concatenates the trimmed `data: ` segments of
/// its lines, in order, without separators.
#[verifier::loop_isolation(true)]
pub fn extract_payload(frame: &[u8]) -> (p: Vec<u8>)
    ensures
        p@ == payload_of(frame@),
{
    let mut acc: Vec<u8> = Vec::new();
    let mut pos: usize = 0;
    proof {
        assert(frame@.skip(0) =~= frame@);
    }
    loop
        invariant_except_break
            pos <= frame@.len(),
            payload_of(frame@) == acc@ + payload_of(frame@.skip(pos as int)),
        ensures
            acc@ == payload_of(frame@),
        decreases frame@.len() - pos,
    {
        let n = frame.len();
        let mut j: usize = pos;
        while j < n && frame[j] != 10
            invariant
                pos <= j <= n,
                n == frame@.len(),
                forall|k: int| pos <= k < j ==> frame@[k] != LF,
            decreases n - j,
        {
            j = j + 1;
        }
        let ghost tail = frame@.skip(pos as int);
        let ghost line = frame@.subrange(pos as int, j as int);
        append_line_payload(&mut acc, frame, pos, j);
        if j == n {
            proof {
                lemma_first_lf_none(tail);
                assert(tail =~= line);
                assert(acc@ =~= payload_of(frame@));
            }
            break;
        }
        proof {
            lemma_first_lf_is(tail, j - pos);
            assert(tail.take(j - pos) =~= line);
            assert(tail.skip(j - pos + 1) =~= frame@.skip(j + 1));
            assert(payload_of(tail) == line_payload(line) + payload_of(frame@.skip(j + 1)));
            assert(payload_of(frame@) == (acc@ + payload_of(frame@.skip(j + 1 as int))));
        }
        pos = j + 1;
    }
    acc
}

/// Whether a payload is exactly the `[DONE]` sentinel.
pub fn is_sentinel_payload(p: &Vec<u8>) -> (r: bool)
    ensures
        r == (p@ == sentinel()),
{
    if p.len() == 6 && p[0] == 91 && p[1] == 68 && p[2] == 79 && p[3] == 78 && p[4] == 69
        && p[5] == 93 {
        proof {
            assert(p@ =~= sentinel());
        }
        true
    } else {
        proof {
            if p@ == sentinel() {
                assert(p@.len() == 6);
                assert(p@[0] == 91u8 && p@[1] == 68u8 && p@[2] == 79u8 && p@[3] == 78u8
                    && p@[4] == 69u8 && p@[5] == 93u8);
                assert(false);
            }
        }
        false
    }
}

/// `t` consists of zero or more complete frames with nothing left over.
pub open spec fn closed_frames(t: Seq<u8>) -> bool
    decreases t.len(),
{
    t.len() == 0 || {
        let e = first_frame_end(t);
        e + 2 <= t.len() && closed_frames(t.skip(e + 2 as int))
    }
}

/// Appending bytes after a complete frame does not move the first terminator.
pub proof fn lemma_first_frame_end_append(b: Seq<u8>, x: Seq<u8>)
    requires
        first_frame_end(b) + 2 <= b.len(),
    ensures
        first_frame_end(b + x) == first_frame_end(b),
{
    lemma_first_frame_end(b);
    let e = first_frame_end(b) as int;
    assert(marker_at(b + x, e));
    assert forall|j: int| 0 <= j < e implies !marker_at(b + x, j) by {
        assert(!marker_at(b, j));
    }
    lemma_first_frame_end_is(b + x, e);
}

/// Frame decoding is compositional: bytes after a run of fully consumed,
/// non-terminal frames decode on their own, so consuming frames as they
/// complete never changes what the whole stream yields.
pub proof fn lemma_stream_append(t: Seq<u8>, x: Seq<u8>)
    requires
        closed_frames(t),
        !stream_completed(t),
    ensures
        stream_payloads(t + x) == stream_payloads(t) + stream_payloads(x),
        stream_completed(t + x) == stream_completed(x),
    decreases t.len(),
{
    if t.len() == 0 {
        assert(t + x =~= x);
        assert(stream_payloads(t) + stream_payloads(x) =~= stream_payloads(x));
    } else {
        let e = first_frame_end(t);
        lemma_first_frame_end_append(t, x);
        assert((t + x).take(e + 2 as int) =~= t.take(e + 2 as int));
        assert((t + x).skip(e + 2 as int) =~= t.skip(e + 2 as int) + x);
        let p = payload_of(t.take(e + 2 as int));
        let rest = t.skip(e + 2 as int);
        lemma_stream_append(rest, x);
        if p == sentinel() {
            assert(stream_completed(t));
            assert(false);
        } else if p.len() == 0 {
        } else {
            assert(seq![p] + (stream_payloads(rest) + stream_payloads(x)) =~= (seq![p]
                + stream_payloads(rest)) + stream_payloads(x));
        }
    }
}

/// One complete frame more keeps a consumed prefix closed.
pub proof fn lemma_closed_frames_extend(t: Seq<u8>, f: Seq<u8>)
    requires
        closed_frames(t),
        is_frame(f),
    ensures
        closed_frames(t + f),
    decreases t.len(),
{
    if t.len() == 0 {
        assert(t + f =~= f);
        assert(closed_frames(Seq::<u8>::empty()));
        assert(f.skip(first_frame_end(f) + 2 as int) =~= Seq::<u8>::empty());
        assert(closed_frames(f));
    } else {
        let e = first_frame_end(t);
        lemma_first_frame_end_append(t, f);
        assert((t + f).skip(e + 2 as int) =~= t.skip(e + 2 as int) + f);
        lemma_closed_frames_extend(t.skip(e + 2 as int), f);
        assert(closed_frames(t + f));
    }
}

/// What a single complete frame contributes to the stream.
pub proof fn lemma_single_frame(f: Seq<u8>)
    requires
        is_frame(f),
    ensures
        stream_payloads(f) == if payload_of(f) == sentinel() || payload_of(f).len() == 0 {
            Seq::<Seq<u8>>::empty()
        } else {
            seq![payload_of(f)]
        },
        stream_completed(f) == (payload_of(f) == sentinel()),
{
    let e = first_frame_end(f);
    assert(f.take(e + 2 as int) =~= f);
    assert(f.skip(e + 2 as int) =~= Seq::<u8>::empty());
    assert(!stream_completed(Seq::<u8>::empty()));
    assert(stream_payloads(Seq::<u8>::empty()) =~= Seq::<Seq<u8>>::empty());
    if payload_of(f) != sentinel() && payload_of(f).len() > 0 {
        assert(seq![payload_of(f)] + stream_payloads(Seq::<u8>::empty()) =~= seq![
            payload_of(f),
        ]);
    }
}

} // verus!
