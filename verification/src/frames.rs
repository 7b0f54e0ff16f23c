//! Byte-stuffed framing for the debug-channel transport.
//!
//! A frame is a start byte `0x00`, the payload with every occurrence of
//! `0x00` or `0xff` doubled, and an end byte `0xff`. [`FrameStreamDecoder`]
//! cuts such frames back out of an unreliable byte stream.
//!
//! Known limitation, kept for wire compatibility: because the escape
//! scheme doubles the delimiter bytes themselves, a doubled byte cut in
//! half at a read boundary can make the decoder misidentify where a frame
//! starts; such a frame is reported as corrupted and skipped.

use vstd::prelude::*;

verus! {

/// Frame start marker.
pub const FRAME_START: u8 = 0x00;

/// Frame end marker.
pub const FRAME_END: u8 = 0xff;

/// Capacity of the stream decoder's reassembly buffer.
pub const STREAM_BUFFER_SIZE: usize = 1024;

/// Why a frame failed to decode.
#[derive(Debug, Clone, Copy, PartialEq, Eq, Structural)]
pub enum FrameDecodeError {
    /// The bytes cannot be a frame: missing start marker or a broken
    /// escape pair.
    Corrupted,
    /// The bytes may be a prefix of a frame: more data is needed.
    Incomplete,
}

/// Whether `b` is a marker byte that must be doubled inside a frame.
pub open spec fn is_marker(b: u8) -> bool {
    b == FRAME_START || b == FRAME_END
}

/// The payload with every marker byte doubled.
pub open spec fn escape_bytes(s: Seq<u8>) -> Seq<u8>
    decreases s.len(),
{
    if s.len() == 0 {
        Seq::empty()
    } else if is_marker(s[0]) {
        seq![s[0], s[0]] + escape_bytes(s.skip(1))
    } else {
        seq![s[0]] + escape_bytes(s.skip(1))
    }
}

/// A whole frame: start marker, escaped payload, end marker.
pub open spec fn framed(s: Seq<u8>) -> Seq<u8> {
    seq![FRAME_START] + escape_bytes(s) + seq![FRAME_END]
}

/// Undo the escaping of a frame body (everything after the start marker,
/// end marker included). The final byte is never taken as a literal: it
/// either terminates the scan or completes an escape pair.
pub open spec fn unescape_body(s: Seq<u8>) -> Result<Seq<u8>, FrameDecodeError>
    decreases s.len(),
{
    if s.len() <= 1 {
        Ok(Seq::empty())
    } else if is_marker(s[0]) {
        if s[1] != s[0] {
            Err(FrameDecodeError::Corrupted)
        } else {
            match unescape_body(s.skip(2)) {
                Ok(r) => Ok(seq![s[0]] + r),
                Err(e) => Err(e),
            }
        }
    } else {
        match unescape_body(s.skip(1)) {
            Ok(r) => Ok(seq![s[0]] + r),
            Err(e) => Err(e),
        }
    }
}

/// What [`Frame::decode`] returns for `data`.
pub open spec fn frame_decode_spec(data: Seq<u8>) -> Result<Seq<u8>, FrameDecodeError> {
    if data.len() == 0 || data[0] != FRAME_START {
        Err(FrameDecodeError::Corrupted)
    } else if data.len() < 2 {
        Err(FrameDecodeError::Incomplete)
    } else if data[data.len() - 1] != FRAME_END {
        Err(FrameDecodeError::Incomplete)
    } else {
        unescape_body(data.skip(1))
    }
}

/// Escaping a payload extended by one byte appends that byte's escape.
proof fn lemma_escape_push(s: Seq<u8>, b: u8)
    ensures
        escape_bytes(s.push(b)) == escape_bytes(s) + if is_marker(b) {
            seq![b, b]
        } else {
            seq![b]
        },
    decreases s.len(),
{
    let tail: Seq<u8> = if is_marker(b) {
        seq![b, b]
    } else {
        seq![b]
    };
    if s.len() == 0 {
        reveal_with_fuel(escape_bytes, 3);
        assert(s.push(b) =~= seq![b]);
        assert(seq![b].skip(1) =~= Seq::<u8>::empty());
        assert(escape_bytes(s.push(b)) =~= escape_bytes(s) + tail);
    } else {
        assert(s.push(b).skip(1) =~= s.skip(1).push(b));
        lemma_escape_push(s.skip(1), b);
        assert(s.push(b).len() == s.len() + 1);
        assert(s.push(b)[0] == s[0]);
        if is_marker(s[0]) {
            assert(escape_bytes(s.push(b)) == seq![s[0], s[0]] + escape_bytes(
                s.skip(1).push(b),
            ));
            assert(escape_bytes(s) == seq![s[0], s[0]] + escape_bytes(s.skip(1)));
        } else {
            assert(escape_bytes(s.push(b)) == seq![s[0]] + escape_bytes(s.skip(1).push(b)));
            assert(escape_bytes(s) == seq![s[0]] + escape_bytes(s.skip(1)));
        }
        assert(escape_bytes(s.push(b)) =~= escape_bytes(s) + tail);
    }
}

/// Unescaping inverts escaping: the escaped payload followed by the end
/// marker scans back to exactly the payload.
pub proof fn lemma_unescape_escape(s: Seq<u8>)
    ensures
        unescape_body(escape_bytes(s) + seq![FRAME_END]) == Ok::<Seq<u8>, FrameDecodeError>(s),
    decreases s.len(),
{
    let body = escape_bytes(s) + seq![FRAME_END];
    if s.len() == 0 {
        assert(body =~= seq![FRAME_END]);
        assert(unescape_body(body) == Ok::<Seq<u8>, FrameDecodeError>(Seq::empty()));
        assert(Seq::<u8>::empty() =~= s);
    } else {
        lemma_unescape_escape(s.skip(1));
        let tail = escape_bytes(s.skip(1)) + seq![FRAME_END];
        if is_marker(s[0]) {
            assert(body =~= seq![s[0], s[0]] + tail);
            assert(body.len() > 1);
            assert(body[0] == s[0] && body[1] == s[0]);
            assert(body.skip(2) =~= tail);
            assert(unescape_body(body) == Ok::<Seq<u8>, FrameDecodeError>(
                seq![s[0]] + s.skip(1),
            ));
            assert(seq![s[0]] + s.skip(1) =~= s);
        } else {
            assert(body =~= seq![s[0]] + tail);
            assert(body.len() > 1);
            assert(body[0] == s[0]);
            assert(body.skip(1) =~= tail);
            assert(unescape_body(body) == Ok::<Seq<u8>, FrameDecodeError>(
                seq![s[0]] + s.skip(1),
            ));
            assert(seq![s[0]] + s.skip(1) =~= s);
        }
    }
}

/// A decoded frame reproduces the payload it was encoded from.
pub proof fn lemma_frame_roundtrip(s: Seq<u8>)
    ensures
        frame_decode_spec(framed(s)) == Ok::<Seq<u8>, FrameDecodeError>(s),
{
    let data = framed(s);
    assert(data[0] == FRAME_START);
    assert(data[data.len() - 1] == FRAME_END);
    assert(data.skip(1) =~= escape_bytes(s) + seq![FRAME_END]);
    lemma_unescape_escape(s);
}

/// The frame codec: stateless encode and decode of single frames.
pub struct Frame;

impl Frame {
    /// Wrap a payload into a frame: start marker, marker bytes doubled,
    /// end marker.
    pub fn encode(payload: &[u8]) -> (r: Vec<u8>)
        ensures
            r@ == framed(payload@),
    {
        let mut out: Vec<u8> = Vec::new();
        out.push(FRAME_START);
        let mut i: usize = 0;
        while i < payload.len()
            invariant
                i <= payload.len(),
                out@ == seq![FRAME_START] + escape_bytes(payload@.take(i as int)),
            decreases payload.len() - i,
        {
            let b = payload[i];
            out.push(b);
            proof {
                lemma_escape_push(payload@.take(i as int), b);
                assert(payload@.take(i as int).push(b) =~= payload@.take(i + 1));
            }
            if b == FRAME_START || b == FRAME_END {
                out.push(b);
            }
            assert(out@ =~= seq![FRAME_START] + escape_bytes(payload@.take(i + 1)));
            i = i + 1;
        }
        assert(payload@.take(payload@.len() as int) =~= payload@);
        out.push(FRAME_END);
        assert(out@ =~= framed(payload@));
        out
    }

    /// Unwrap a frame back into its payload, reporting corruption or a
    /// truncated frame.
    pub fn decode(data: &[u8]) -> (r: Result<Vec<u8>, FrameDecodeError>)
        ensures
            match r {
                Ok(p) => frame_decode_spec(data@) == Ok::<Seq<u8>, FrameDecodeError>(p@),
                Err(e) => frame_decode_spec(data@) == Err::<Seq<u8>, FrameDecodeError>(e),
            },
    {
        if data.len() == 0 || data[0] != FRAME_START {
            return Err(FrameDecodeError::Corrupted);
        }
        if data.len() < 2 {
            return Err(FrameDecodeError::Incomplete);
        }
        if data[data.len() - 1] != FRAME_END {
            return Err(FrameDecodeError::Incomplete);
        }

        let mut out: Vec<u8> = Vec::new();
        let mut i: usize = 1;
        let ghost body = data@.skip(1);
        proof {
            if let Ok(r) = unescape_body(body) {
                assert(Seq::<u8>::empty() + r =~= r);
            }
        }
        while i < data.len() - 1
            invariant
                1 <= i <= data.len(),
                data@.len() >= 2,
                data@[0] == FRAME_START,
                data@[data@.len() - 1] == FRAME_END,
                body == data@.skip(1),
                unescape_body(body) == match unescape_body(data@.skip(i as int)) {
                    Ok(r) => Ok::<Seq<u8>, FrameDecodeError>(out@ + r),
                    Err(e) => Err::<Seq<u8>, FrameDecodeError>(e),
                },
            decreases data.len() - i,
        {
            let ghost rest = data@.skip(i as int);
            assert(rest.len() > 1);
            let b = data[i];
            assert(rest[0] == b);
            if b == FRAME_START || b == FRAME_END {
                assert(rest[1] == data@[i + 1]);
                if data[i + 1] != b {
                    assert(unescape_body(rest) == Err::<Seq<u8>, FrameDecodeError>(
                        FrameDecodeError::Corrupted,
                    ));
                    assert(unescape_body(body) == Err::<Seq<u8>, FrameDecodeError>(
                        FrameDecodeError::Corrupted,
                    ));
                    assert(frame_decode_spec(data@) == Err::<Seq<u8>, FrameDecodeError>(
                        FrameDecodeError::Corrupted,
                    ));
                    return Err(FrameDecodeError::Corrupted);
                }
                let ghost prev = out@;
                out.push(b);
                proof {
                    assert(rest.skip(2) =~= data@.skip(i + 2));
                    assert(unescape_body(rest) == match unescape_body(data@.skip(i + 2)) {
                        Ok(r) => Ok::<Seq<u8>, FrameDecodeError>(seq![b] + r),
                        Err(e) => Err::<Seq<u8>, FrameDecodeError>(e),
                    });
                    if let Ok(r) = unescape_body(data@.skip(i + 2)) {
                        assert(prev + (seq![b] + r) =~= out@ + r);
                    }
                }
                i = i + 2;
            } else {
                let ghost prev = out@;
                out.push(b);
                proof {
                    assert(rest.skip(1) =~= data@.skip(i + 1));
                    assert(unescape_body(rest) == match unescape_body(data@.skip(i + 1)) {
                        Ok(r) => Ok::<Seq<u8>, FrameDecodeError>(seq![b] + r),
                        Err(e) => Err::<Seq<u8>, FrameDecodeError>(e),
                    });
                    if let Ok(r) = unescape_body(data@.skip(i + 1)) {
                        assert(prev + (seq![b] + r) =~= out@ + r);
                    }
                }
                i = i + 1;
            }
        }
        proof {
            assert(data@.skip(i as int).len() <= 1);
            assert(out@ + Seq::<u8>::empty() =~= out@);
        }
        Ok(out)
    }
}

/// Index of the first occurrence of `t` in `s`, or `s.len()` when `t`
/// does not occur.
pub open spec fn find_byte(s: Seq<u8>, t: u8) -> nat
    decreases s.len(),
{
    if s.len() == 0 {
        0
    } else if s[0] == t {
        0
    } else {
        1 + find_byte(s.skip(1), t)
    }
}

/// `find_byte` is the unique index with no occurrence of `t` before it
/// and, when inside the sequence, `t` at it.
proof fn lemma_find_byte_is(s: Seq<u8>, t: u8, k: int)
    requires
        0 <= k <= s.len(),
        forall|j: int| 0 <= j < k ==> s[j] != t,
        k < s.len() ==> s[k] == t,
    ensures
        find_byte(s, t) == k,
    decreases s.len(),
{
    if s.len() == 0 {
    } else if k == 0 {
    } else {
        assert(s[0] != t);
        assert(forall|j: int| 0 <= j < k - 1 ==> s.skip(1)[j] == s[j + 1]);
        lemma_find_byte_is(s.skip(1), t, k - 1);
    }
}

/// One decoding step over a reassembly buffer: the first well-formed
/// frame's payload (skipping corrupted frames) and what the buffer holds
/// afterwards.
///
/// With no start marker the buffer is discarded; with a start marker but
/// no end marker the buffer is retained from the start marker on; a
/// decoded frame consumes everything up to its end marker.
pub open spec fn stream_step(b: Seq<u8>) -> (Option<Seq<u8>>, Seq<u8>)
    decreases b.len(),
{
    let s = find_byte(b, FRAME_START);
    if s >= b.len() {
        (None, Seq::empty())
    } else {
        let rel_e = find_byte(b.skip(s as int), FRAME_END);
        if rel_e >= b.len() - s {
            (None, b.skip(s as int))
        } else {
            let e = s + rel_e;
            match frame_decode_spec(b.subrange(s as int, e + 1 as int)) {
                Ok(p) => (Some(p), b.skip(e + 1 as int)),
                Err(_) => stream_step(b.skip(e + 1 as int)),
            }
        }
    }
}

/// Both components of `find_byte`'s characterisation, for use at call
/// sites.
proof fn lemma_find_byte_bounds(s: Seq<u8>, t: u8)
    ensures
        0 <= find_byte(s, t) <= s.len(),
    decreases s.len(),
{
    if s.len() == 0 {
    } else if s[0] == t {
    } else {
        lemma_find_byte_bounds(s.skip(1), t);
    }
}

/// Escaping never introduces an end marker that was not in the
/// payload.
proof fn lemma_escape_no_end_marker(p: Seq<u8>)
    requires
        forall|i: int| 0 <= i < p.len() ==> p[i] != FRAME_END,
    ensures
        forall|j: int|
            0 <= j < escape_bytes(p).len() ==> #[trigger] escape_bytes(p)[j] != FRAME_END,
    decreases p.len(),
{
    if p.len() == 0 {
    } else {
        assert(forall|i: int| 0 <= i < p.skip(1).len() ==> p.skip(1)[i] == p[i + 1]);
        lemma_escape_no_end_marker(p.skip(1));
        let head: Seq<u8> = if is_marker(p[0]) {
            seq![p[0], p[0]]
        } else {
            seq![p[0]]
        };
        assert(escape_bytes(p) == head + escape_bytes(p.skip(1)));
        assert forall|j: int| 0 <= j < escape_bytes(p).len() implies #[trigger] escape_bytes(p)[j]
            != FRAME_END by {
            if j < head.len() {
                assert(escape_bytes(p)[j] == p[0]);
            } else {
                assert(escape_bytes(p)[j] == escape_bytes(p.skip(1))[j - head.len()]);
            }
        }
    }
}

/// A buffer holding exactly one frame of a payload free of end-marker
/// bytes scans to that payload and leaves nothing behind: on such
/// payloads the stream decoder inverts the frame encoder.
pub proof fn lemma_stream_step_of_frame(p: Seq<u8>)
    requires
        forall|i: int| 0 <= i < p.len() ==> p[i] != FRAME_END,
    ensures
        stream_step(framed(p)).0 == Some(p),
        stream_step(framed(p)).1 == Seq::<u8>::empty(),
{
    let b = framed(p);
    assert(b[0] == FRAME_START);
    assert(find_byte(b, FRAME_START) == 0);
    lemma_escape_no_end_marker(p);
    assert(b.skip(0) =~= b);
    assert forall|j: int| 0 <= j < b.len() - 1 implies b[j] != FRAME_END by {
        if j > 0 {
            assert(b[j] == escape_bytes(p)[j - 1]);
        }
    }
    assert(b[b.len() - 1] == FRAME_END);
    lemma_find_byte_is(b, FRAME_END, b.len() - 1);
    assert(b.subrange(0, b.len() as int) =~= b);
    lemma_frame_roundtrip(p);
    assert(b.skip(b.len() as int) =~= Seq::<u8>::empty());
}

/// Reassembles frames out of a byte stream that arrives in arbitrary
/// slices, retaining an incomplete trailing frame between calls.
pub struct FrameStreamDecoder {
    buffer: Vec<u8>,
}

impl FrameStreamDecoder {
    /// Bytes currently held for reassembly.
    pub closed spec fn contents(&self) -> Seq<u8> {
        self.buffer@
    }

    /// The buffer never outgrows its fixed capacity.
    pub closed spec fn inv(&self) -> bool {
        self.buffer@.len() <= STREAM_BUFFER_SIZE
    }

    /// An empty decoder.
    pub fn new() -> (r: Self)
        ensures
            r.inv(),
            r.contents() == Seq::<u8>::empty(),
    {
        FrameStreamDecoder { buffer: Vec::new() }
    }

    /// Append received bytes, dropping whatever exceeds the buffer
    /// capacity.
    pub fn receive(&mut self, data: &[u8])
        requires
            old(self).inv(),
        ensures
            final(self).inv(),
            final(self).contents() == old(self).contents() + data@.take(
                if data@.len() <= STREAM_BUFFER_SIZE - old(self).contents().len() {
                    data@.len() as int
                } else {
                    STREAM_BUFFER_SIZE - old(self).contents().len()
                },
            ),
    {
        let space = STREAM_BUFFER_SIZE - self.buffer.len();
        let take = if data.len() <= space {
            data.len()
        } else {
            space
        };
        let mut i: usize = 0;
        while i < take
            invariant
                i <= take,
                take <= data@.len(),
                self.buffer@.len() == old(self).contents().len() + i,
                self.buffer@ == old(self).contents() + data@.take(i as int),
            decreases take - i,
        {
            self.buffer.push(data[i]);
            assert(self.buffer@ =~= old(self).contents() + data@.take(i + 1));
            i = i + 1;
        }
    }

    /// Scan from `from` for the first occurrence of `t` in the buffer.
    fn scan(v: &Vec<u8>, from: usize, t: u8) -> (r: usize)
        requires
            from <= v@.len(),
        ensures
            from <= r <= v@.len(),
            r - from == find_byte(v@.skip(from as int), t),
    {
        let mut j = from;
        while j < v.len()
            invariant
                from <= j <= v@.len(),
                forall|k: int| from <= k < j ==> v@[k] != t,
            decreases v@.len() - j,
        {
            if v[j] == t {
                proof {
                    let s = v@.skip(from as int);
                    assert(forall|k: int|
                        0 <= k < j - from ==> s[k] == v@[k + from] && s[k] != t);
                    lemma_find_byte_is(s, t, j - from);
                }
                return j;
            }
            j = j + 1;
        }
        proof {
            let s = v@.skip(from as int);
            assert(forall|k: int| 0 <= k < s.len() ==> s[k] == v@[k + from] && s[k] != t);
            lemma_find_byte_is(s, t, s.len() as int);
        }
        v.len()
    }

    /// Copy `v[start..end]` into a fresh vector.
    fn copy_range(v: &Vec<u8>, start: usize, end: usize) -> (r: Vec<u8>)
        requires
            start <= end <= v@.len(),
        ensures
            r@ == v@.subrange(start as int, end as int),
    {
        let mut out: Vec<u8> = Vec::new();
        let mut j = start;
        while j < end
            invariant
                start <= j <= end <= v@.len(),
                out@ == v@.subrange(start as int, j as int),
            decreases end - j,
        {
            out.push(v[j]);
            assert(out@ =~= v@.subrange(start as int, j + 1));
            j = j + 1;
        }
        out
    }

    /// Decode the next frame out of the buffer: corrupted frames are
    /// skipped, an incomplete trailing frame is kept for the next call,
    /// and everything before it is dropped.
    pub fn next_message(&mut self) -> (r: Option<Vec<u8>>)
        requires
            old(self).inv(),
        ensures
            final(self).inv(),
            final(self).contents() == stream_step(old(self).contents()).1,
            match r {
                Some(v) => stream_step(old(self).contents()).0 == Some(v@),
                None => stream_step(old(self).contents()).0 is None,
            },
    {
        let ghost c0 = self.buffer@;
        proof {
            assert(c0.skip(0) =~= c0);
        }
        let mut processed: usize = 0;
        let mut result: Option<Vec<u8>> = None;
        let mut keep_from: usize = self.buffer.len();

        loop
            invariant_except_break
                result is None,
            invariant
                processed <= self.buffer@.len(),
                self.buffer@ == c0,
                c0.len() <= STREAM_BUFFER_SIZE,
                stream_step(c0) == stream_step(c0.skip(processed as int)),
            ensures
                self.buffer@ == c0,
                keep_from <= c0.len(),
                c0.skip(keep_from as int) == stream_step(c0).1,
                match result {
                    Some(v) => stream_step(c0).0 == Some(v@),
                    None => stream_step(c0).0 is None,
                },
            decreases self.buffer@.len() - processed,
        {
            let ghost rem = c0.skip(processed as int);
            let start = Self::scan(&self.buffer, processed, FRAME_START);
            proof {
                lemma_find_byte_bounds(rem, FRAME_START);
            }
            if start == self.buffer.len() {
                assert(find_byte(rem, FRAME_START) == rem.len());
                assert(stream_step(rem).1 =~= c0.skip(c0.len() as int));
                keep_from = self.buffer.len();
                break;
            }
            assert(find_byte(rem, FRAME_START) < rem.len());

            let end = Self::scan(&self.buffer, start, FRAME_END);
            proof {
                let srel = c0.skip(start as int);
                assert(srel =~= rem.skip(find_byte(rem, FRAME_START) as int));
                lemma_find_byte_bounds(srel, FRAME_END);
            }
            if end == self.buffer.len() {
                proof {
                    let s = find_byte(rem, FRAME_START) as int;
                    let srel = rem.skip(s);
                    assert(srel =~= c0.skip(start as int));
                    assert(find_byte(srel, FRAME_END) == srel.len());
                    assert(stream_step(rem).1 =~= c0.skip(start as int));
                }
                keep_from = start;
                break;
            }

            let frame = Self::copy_range(&self.buffer, start, end + 1);
            proof {
                let s = find_byte(rem, FRAME_START) as int;
                let srel = rem.skip(s);
                assert(srel =~= c0.skip(start as int));
                let rel_e = find_byte(srel, FRAME_END);
                assert(rel_e < srel.len());
                assert(end - start == rel_e);
                assert(rem.subrange(s, s + rel_e + 1) =~= c0.subrange(
                    start as int,
                    end + 1,
                ));
                assert(frame@ == rem.subrange(s, s + rel_e + 1));
            }
            match Frame::decode(frame.as_slice()) {
                Ok(payload) => {
                    proof {
                        assert(stream_step(rem).0 == Some(payload@));
                        assert(stream_step(rem).1 =~= c0.skip(end + 1));
                    }
                    keep_from = end + 1;
                    result = Some(payload);
                    break;
                },
                Err(_) => {
                    proof {
                        let s = find_byte(rem, FRAME_START) as int;
                        let rel_e = find_byte(rem.skip(s), FRAME_END) as int;
                        assert(rem.skip(s + rel_e + 1) =~= c0.skip(end + 1));
                        assert(stream_step(rem) == stream_step(c0.skip(end + 1)));
                    }
                    processed = end + 1;
                },
            }
        }

        let tail = Self::copy_range(&self.buffer, keep_from, self.buffer.len());
        proof {
            assert(tail@ =~= c0.skip(keep_from as int));
        }
        self.buffer = tail;
        result
    }
}

} // verus!
