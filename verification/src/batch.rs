//! Splitting a byte stream into JSON objects, keeping an incomplete tail
//! until more bytes arrive.

use vstd::prelude::*;
use crate::json::{JsonValue, parse_json, spec_json_from_slice};
use crate::types::PolyfillError;

verus! {

/// The scanner's state after some bytes: brace depth, whether it is inside a
/// string, and whether the previous byte was an escaping backslash.
pub open spec fn spec_scan(b: Seq<u8>, i: int, depth: int, in_string: bool, escaped: bool) -> Option<int>
    decreases b.len() - i,
{
    if i < 0 || i >= b.len() {
        None
    } else if escaped {
        spec_scan(b, i + 1, depth, in_string, false)
    } else if b[i] == 0x5cu8 && in_string {
        spec_scan(b, i + 1, depth, in_string, true)
    } else if b[i] == 0x22u8 {
        spec_scan(b, i + 1, depth, !in_string, false)
    } else if b[i] == 0x7bu8 && !in_string {
        spec_scan(b, i + 1, depth + 1, in_string, false)
    } else if b[i] == 0x7du8 && !in_string {
        if depth - 1 == 0 {
            Some(i + 1)
        } else {
            spec_scan(b, i + 1, depth - 1, in_string, false)
        }
    } else {
        spec_scan(b, i + 1, depth, in_string, false)
    }
}

/// Where the JSON object that starts scanning at `start` ends: one past the
/// `}` that brings the brace depth, counted outside strings, back to zero.
pub open spec fn spec_boundary(b: Seq<u8>, start: int) -> Option<int> {
    spec_scan(b, start, 0, false, false)
}

/// The frames that repeated boundary search cuts from `b` beginning at
/// `start`, and the position where the unfinished tail begins.
pub open spec fn spec_split(b: Seq<u8>, start: int) -> (Seq<Seq<u8>>, int)
    decreases b.len() - start,
{
    match spec_boundary(b, start) {
        Some(end) => if start < end <= b.len() {
            let rest = spec_split(b, end);
            (seq![b.subrange(start, end)] + rest.0, rest.1)
        } else {
            (Seq::empty(), start)
        },
        None => (Seq::empty(), start),
    }
}

/// The documents that the frames hold, in order, skipping frames that are not JSON.
pub open spec fn spec_parse_frames(frames: Seq<Seq<u8>>) -> Seq<JsonValue>
    decreases frames.len(),
{
    if frames.len() == 0 {
        Seq::empty()
    } else {
        let rest = spec_parse_frames(frames.drop_first());
        match spec_json_from_slice(frames[0]) {
            Some(v) => seq![v] + rest,
            None => rest,
        }
    }
}

/// The frames laid end to end.
pub open spec fn spec_concat(frames: Seq<Seq<u8>>) -> Seq<u8>
    decreases frames.len(),
{
    if frames.len() == 0 {
        Seq::empty()
    } else {
        frames[0] + spec_concat(frames.drop_first())
    }
}

pub proof fn lemma_scan_bounds(b: Seq<u8>, i: int, depth: int, in_string: bool, escaped: bool)
    ensures
        spec_scan(b, i, depth, in_string, escaped) matches Some(e) ==> i < e <= b.len(),
    decreases b.len() - i,
{
    if 0 <= i < b.len() {
        lemma_scan_bounds(b, i + 1, depth, in_string, false);
        lemma_scan_bounds(b, i + 1, depth, in_string, true);
        lemma_scan_bounds(b, i + 1, depth, !in_string, false);
        lemma_scan_bounds(b, i + 1, depth + 1, in_string, false);
        lemma_scan_bounds(b, i + 1, depth - 1, in_string, false);
    }
}


proof fn lemma_scan_in_frame(b: Seq<u8>, start: int, i: int, depth: int, in_string: bool, escaped: bool, end: int)
    requires
        0 <= start <= i,
        spec_scan(b, i, depth, in_string, escaped) == Some(end),
    ensures
        spec_scan(b.subrange(start, end), i - start, depth, in_string, escaped) == Some(end - start),
    decreases b.len() - i,
{
    lemma_scan_bounds(b, i, depth, in_string, escaped);
    let f = b.subrange(start, end);
    assert(f[i - start] == b[i]);
    if escaped {
        lemma_scan_in_frame(b, start, i + 1, depth, in_string, false, end);
    } else if b[i] == 0x5cu8 && in_string {
        lemma_scan_in_frame(b, start, i + 1, depth, in_string, true, end);
    } else if b[i] == 0x22u8 {
        lemma_scan_in_frame(b, start, i + 1, depth, !in_string, false, end);
    } else if b[i] == 0x7bu8 && !in_string {
        lemma_scan_in_frame(b, start, i + 1, depth + 1, in_string, false, end);
    } else if b[i] == 0x7du8 && !in_string {
        if depth - 1 != 0 {
            lemma_scan_in_frame(b, start, i + 1, depth - 1, in_string, false, end);
        }
    } else {
        lemma_scan_in_frame(b, start, i + 1, depth, in_string, false, end);
    }
}

proof fn lemma_scan_in_tail(b: Seq<u8>, start: int, i: int, depth: int, in_string: bool, escaped: bool)
    requires
        0 <= start <= i,
        start <= b.len(),
        spec_scan(b, i, depth, in_string, escaped) is None,
    ensures
        spec_scan(b.subrange(start, b.len() as int), i - start, depth, in_string, escaped) is None,
    decreases b.len() - i,
{
    let t = b.subrange(start, b.len() as int);
    if i < b.len() {
        assert(t[i - start] == b[i]);
        if escaped {
            lemma_scan_in_tail(b, start, i + 1, depth, in_string, false);
        } else if b[i] == 0x5cu8 && in_string {
            lemma_scan_in_tail(b, start, i + 1, depth, in_string, true);
        } else if b[i] == 0x22u8 {
            lemma_scan_in_tail(b, start, i + 1, depth, !in_string, false);
        } else if b[i] == 0x7bu8 && !in_string {
            lemma_scan_in_tail(b, start, i + 1, depth + 1, in_string, false);
        } else if b[i] == 0x7du8 && !in_string {
            lemma_scan_in_tail(b, start, i + 1, depth - 1, in_string, false);
        } else {
            lemma_scan_in_tail(b, start, i + 1, depth, in_string, false);
        }
    }
}

proof fn lemma_split_parts(b: Seq<u8>, start: int)
    requires
        0 <= start <= b.len(),
    ensures
        start <= spec_split(b, start).1 <= b.len(),
        spec_concat(spec_split(b, start).0) + b.subrange(spec_split(b, start).1, b.len() as int)
            == b.subrange(start, b.len() as int),
        forall|k: int| 0 <= k < spec_split(b, start).0.len() ==>
            spec_boundary(#[trigger] spec_split(b, start).0[k], 0) == Some(spec_split(b, start).0[k].len() as int),
        spec_boundary(b, spec_split(b, start).1) is None,
    decreases b.len() - start,
{
    lemma_scan_bounds(b, start, 0, false, false);
    match spec_boundary(b, start) {
        Some(end) => {
            lemma_split_parts(b, end);
            lemma_scan_in_frame(b, start, start, 0, false, false, end);
            let rest = spec_split(b, end);
            let frame = b.subrange(start, end);
            assert(spec_split(b, start).0 == seq![frame] + rest.0);
            assert((seq![frame] + rest.0).drop_first() =~= rest.0);
            assert(spec_concat(seq![frame] + rest.0) == frame + spec_concat(rest.0));
            assert(frame + (spec_concat(rest.0) + b.subrange(rest.1, b.len() as int))
                =~= b.subrange(start, b.len() as int));
            assert forall|k: int| 0 <= k < spec_split(b, start).0.len() implies
                spec_boundary(#[trigger] spec_split(b, start).0[k], 0) == Some(spec_split(b, start).0[k].len() as int) by {
                if k > 0 {
                    assert(spec_split(b, start).0[k] == rest.0[k - 1]);
                }
            }
        },
        None => {
            assert(spec_concat(Seq::<Seq<u8>>::empty()) =~= Seq::<u8>::empty());
            assert(Seq::<u8>::empty() + b.subrange(start, b.len() as int) =~= b.subrange(start, b.len() as int));
        },
    }
}

/// Law: nothing is lost or reordered. The frames that one call of
/// `take_frames` hands out, laid end to end and followed by the bytes it keeps,
/// are exactly the bytes it held before plus the bytes it was given.
pub proof fn law_frames_and_tail_rebuild_input(held: Seq<u8>, data: Seq<u8>)
    ensures
        ({
            let all = held + data;
            let split = spec_split(all, 0);
            spec_concat(split.0) + all.subrange(split.1, all.len() as int) == all
        }),
{
    let all = held + data;
    lemma_split_parts(all, 0);
    assert(all.subrange(0, all.len() as int) =~= all);
}

/// Law: every frame that `take_frames` hands out is one complete object: the
/// boundary search, run on the frame alone, ends exactly at its last byte.
pub proof fn law_each_frame_is_one_object(held: Seq<u8>, data: Seq<u8>)
    ensures
        ({
            let frames = spec_split(held + data, 0).0;
            forall|k: int| 0 <= k < frames.len() ==>
                spec_boundary(#[trigger] frames[k], 0) == Some(frames[k].len() as int)
        }),
{
    lemma_split_parts(held + data, 0);
}

/// Law: the bytes that `take_frames` keeps back hold no complete object: the
/// boundary search finds none in them.
pub proof fn law_kept_bytes_hold_no_complete_object(held: Seq<u8>, data: Seq<u8>)
    ensures
        ({
            let all = held + data;
            let split = spec_split(all, 0);
            spec_boundary(all.subrange(split.1, all.len() as int), 0) is None
        }),
{
    let all = held + data;
    lemma_split_parts(all, 0);
    let s = spec_split(all, 0).1;
    lemma_scan_in_tail(all, s, s, 0, false, false);
}

proof fn lemma_scan_extend(x: Seq<u8>, y: Seq<u8>, i: int, depth: int, in_string: bool, escaped: bool)
    requires
        spec_scan(x, i, depth, in_string, escaped) is Some,
    ensures
        spec_scan(x + y, i, depth, in_string, escaped) == spec_scan(x, i, depth, in_string, escaped),
    decreases x.len() - i,
{
    let b = x + y;
    assert(b[i] == x[i]);
    if escaped {
        lemma_scan_extend(x, y, i + 1, depth, in_string, false);
    } else if x[i] == 0x5cu8 && in_string {
        lemma_scan_extend(x, y, i + 1, depth, in_string, true);
    } else if x[i] == 0x22u8 {
        lemma_scan_extend(x, y, i + 1, depth, !in_string, false);
    } else if x[i] == 0x7bu8 && !in_string {
        lemma_scan_extend(x, y, i + 1, depth + 1, in_string, false);
    } else if x[i] == 0x7du8 && !in_string {
        if depth - 1 != 0 {
            lemma_scan_extend(x, y, i + 1, depth - 1, in_string, false);
        }
    } else {
        lemma_scan_extend(x, y, i + 1, depth, in_string, false);
    }
}

proof fn lemma_scan_shift(b: Seq<u8>, k: int, i: int, depth: int, in_string: bool, escaped: bool)
    requires
        0 <= k <= i,
        k <= b.len(),
    ensures
        spec_scan(b.subrange(k, b.len() as int), i - k, depth, in_string, escaped) == match spec_scan(b, i, depth, in_string, escaped) {
            Some(e) => Some(e - k),
            None => None::<int>,
        },
    decreases b.len() - i,
{
    let t = b.subrange(k, b.len() as int);
    if i < b.len() {
        assert(t[i - k] == b[i]);
        if escaped {
            lemma_scan_shift(b, k, i + 1, depth, in_string, false);
        } else if b[i] == 0x5cu8 && in_string {
            lemma_scan_shift(b, k, i + 1, depth, in_string, true);
        } else if b[i] == 0x22u8 {
            lemma_scan_shift(b, k, i + 1, depth, !in_string, false);
        } else if b[i] == 0x7bu8 && !in_string {
            lemma_scan_shift(b, k, i + 1, depth + 1, in_string, false);
        } else if b[i] == 0x7du8 && !in_string {
            if depth - 1 != 0 {
                lemma_scan_shift(b, k, i + 1, depth - 1, in_string, false);
            }
        } else {
            lemma_scan_shift(b, k, i + 1, depth, in_string, false);
        }
    }
}

proof fn lemma_split_extend(x: Seq<u8>, y: Seq<u8>, start: int)
    requires
        0 <= start <= x.len(),
    ensures
        ({
            let sx = spec_split(x, start);
            let sxy = spec_split(x + y, start);
            let rest = spec_split(x + y, sx.1);
            &&& sxy.0 == sx.0 + rest.0
            &&& sxy.1 == rest.1
        }),
    decreases x.len() - start,
{
    lemma_scan_bounds(x, start, 0, false, false);
    match spec_boundary(x, start) {
        Some(end) => {
            lemma_scan_extend(x, y, start, 0, false, false);
            lemma_split_extend(x, y, end);
            let frame = x.subrange(start, end);
            assert((x + y).subrange(start, end) =~= frame);
            let sx = spec_split(x, start);
            let rest = spec_split(x + y, spec_split(x, end).1);
            assert(sx.0 == seq![frame] + spec_split(x, end).0);
            assert(seq![frame] + (spec_split(x, end).0 + rest.0) =~= (seq![frame] + spec_split(x, end).0) + rest.0);
        },
        None => {
            assert(Seq::<Seq<u8>>::empty() + spec_split(x + y, start).0 =~= spec_split(x + y, start).0);
        },
    }
}

proof fn lemma_split_shift(b: Seq<u8>, k: int, i: int)
    requires
        0 <= k <= b.len(),
        0 <= i <= b.len() - k,
    ensures
        ({
            let t = b.subrange(k, b.len() as int);
            &&& spec_split(b, k + i).0 == spec_split(t, i).0
            &&& spec_split(b, k + i).1 == spec_split(t, i).1 + k
        }),
    decreases b.len() - k - i,
{
    let t = b.subrange(k, b.len() as int);
    lemma_scan_shift(b, k, k + i, 0, false, false);
    lemma_scan_bounds(b, k + i, 0, false, false);
    match spec_boundary(b, k + i) {
        Some(end) => {
            lemma_split_shift(b, k, end - k);
            assert(t.subrange(i, end - k) =~= b.subrange(k + i, end));
        },
        None => {},
    }
}

proof fn lemma_parse_frames_concat(f1: Seq<Seq<u8>>, f2: Seq<Seq<u8>>)
    ensures
        spec_parse_frames(f1 + f2) == spec_parse_frames(f1) + spec_parse_frames(f2),
    decreases f1.len(),
{
    if f1.len() == 0 {
        assert(f1 + f2 =~= f2);
        assert(Seq::<JsonValue>::empty() + spec_parse_frames(f2) =~= spec_parse_frames(f2));
    } else {
        assert((f1 + f2).drop_first() =~= f1.drop_first() + f2);
        assert((f1 + f2)[0] == f1[0]);
        lemma_parse_frames_concat(f1.drop_first(), f2);
        let rest = spec_parse_frames(f1.drop_first());
        match spec_json_from_slice(f1[0]) {
            Some(v) => {
                assert(seq![v] + (rest + spec_parse_frames(f2)) =~= (seq![v] + rest) + spec_parse_frames(f2));
            },
            None => {},
        }
    }
}

/// Law: how the stream is cut into chunks does not matter. Giving `take_frames`
/// the bytes `a` and then `b` hands out, over the two calls, the same frames as
/// giving it `a` and `b` joined in one call, and leaves the same bytes held, so
/// every later call behaves the same too.
pub proof fn law_chunking_does_not_matter(held: Seq<u8>, a: Seq<u8>, b: Seq<u8>)
    ensures
        ({
            let first = spec_split(held + a, 0);
            let tail = (held + a).subrange(first.1, (held + a).len() as int);
            let second = spec_split(tail + b, 0);
            let once = spec_split(held + (a + b), 0);
            &&& once.0 == first.0 + second.0
            &&& (held + (a + b)).subrange(once.1, (held + (a + b)).len() as int)
                == (tail + b).subrange(second.1, (tail + b).len() as int)
        }),
{
    let x = held + a;
    let all = held + (a + b);
    assert(all =~= x + b);
    lemma_split_parts(x, 0);
    let first = spec_split(x, 0);
    let s1 = first.1;
    let tail = x.subrange(s1, x.len() as int);
    lemma_split_extend(x, b, 0);
    assert(all.subrange(s1, all.len() as int) =~= tail + b);
    lemma_split_shift(all, s1, 0);
    let second = spec_split(tail + b, 0);
    lemma_split_parts(tail + b, 0);
    assert(all.subrange(second.1 + s1, all.len() as int) =~= (tail + b).subrange(second.1, (tail + b).len() as int));
}

/// Law: the documents that `parse_json_stream` hands out over two calls on `a`
/// and then `b` are those of one call on `a` and `b` joined, in the same order.
pub proof fn law_parse_json_stream_chunking(held: Seq<u8>, a: Seq<u8>, b: Seq<u8>)
    ensures
        ({
            let first = spec_split(held + a, 0);
            let tail = (held + a).subrange(first.1, (held + a).len() as int);
            let second = spec_split(tail + b, 0);
            spec_parse_frames(first.0) + spec_parse_frames(second.0)
                == spec_parse_frames(spec_split(held + (a + b), 0).0)
        }),
{
    law_chunking_does_not_matter(held, a, b);
    let first = spec_split(held + a, 0);
    let tail = (held + a).subrange(first.1, (held + a).len() as int);
    lemma_parse_frames_concat(first.0, spec_split(tail + b, 0).0);
}

/// How many of the frames `serde_json` accepts.
pub open spec fn spec_parsing_count(frames: Seq<Seq<u8>>) -> nat
    decreases frames.len(),
{
    if frames.len() == 0 {
        0
    } else {
        (if spec_json_from_slice(frames[0]) is Some { 1nat } else { 0nat }) + spec_parsing_count(frames.drop_first())
    }
}

proof fn lemma_parsed_frames_in_place(frames: Seq<Seq<u8>>, values: Seq<JsonValue>)
    requires
        values == spec_parse_frames(frames),
    ensures
        values.len() == spec_parsing_count(frames),
        forall|k: int| 0 <= k < frames.len() && (#[trigger] spec_json_from_slice(frames[k])) is Some ==> {
            &&& spec_parsing_count(frames.take(k)) < values.len()
            &&& values[spec_parsing_count(frames.take(k)) as int] == spec_json_from_slice(frames[k])->0
        },
    decreases frames.len(),
{
    if frames.len() > 0 {
        let rest = frames.drop_first();
        lemma_parsed_frames_in_place(rest, spec_parse_frames(rest));
        let head: nat = if spec_json_from_slice(frames[0]) is Some { 1 } else { 0 };
        assert forall|k: int| 0 <= k < frames.len() && (#[trigger] spec_json_from_slice(frames[k])) is Some implies {
            &&& spec_parsing_count(frames.take(k)) < values.len()
            &&& values[spec_parsing_count(frames.take(k)) as int] == spec_json_from_slice(frames[k])->0
        } by {
            if k == 0 {
                assert(frames.take(0) =~= Seq::<Seq<u8>>::empty());
            } else {
                assert(frames.take(k).drop_first() =~= rest.take(k - 1));
                assert(frames.take(k)[0] == frames[0]);
                assert(rest[k - 1] == frames[k]);
                assert(spec_json_from_slice(rest[k - 1]) is Some);
            }
        }
    }
}

/// Law: `parse_json_stream` hands out one document for every frame that
/// `serde_json` accepts, whatever byte the frame begins with, and no other:
/// as many documents as such frames, and the document of the k-th frame
/// stands after those of the accepted frames before it.
pub proof fn law_every_accepted_frame_is_handed_out(held: Seq<u8>, data: Seq<u8>, values: Seq<JsonValue>)
    requires
        values == spec_parse_frames(spec_split(held + data, 0).0),
    ensures
        ({
            let frames = spec_split(held + data, 0).0;
            &&& values.len() == spec_parsing_count(frames)
            &&& forall|k: int| 0 <= k < frames.len() && (#[trigger] spec_json_from_slice(frames[k])) is Some ==> {
                &&& spec_parsing_count(frames.take(k)) < values.len()
                &&& values[spec_parsing_count(frames.take(k)) as int] == spec_json_from_slice(frames[k])->0
            }
        }),
{
    lemma_parsed_frames_in_place(spec_split(held + data, 0).0, values);
}

/// Accumulates bytes and hands out the complete JSON objects among them.
pub struct BatchDecoder {
    buffer: Vec<u8>,
}

impl View for BatchDecoder {
    type V = Seq<u8>;

    /// The bytes held back, waiting for the rest of an object.
    closed spec fn view(&self) -> Seq<u8> {
        self.buffer@
    }
}

impl BatchDecoder {
    /// A decoder that holds no bytes.
    pub fn new() -> (r: Self)
        ensures
            r@ == Seq::<u8>::empty(),
    {
        BatchDecoder { buffer: Vec::with_capacity(8192) }
    }

    /// Finds the end of the JSON object that begins at `start`, counting
    /// braces outside strings and skipping escaped characters.
    fn find_json_boundary(&self, start: usize) -> (r: Option<usize>)
        requires
            start <= self.buffer@.len(),
        ensures
            match spec_boundary(self.buffer@, start as int) {
                Some(e) => r == Some(e as usize),
                None => r is None,
            },
    {
        let b = self.buffer.as_slice();
        // depth = opens - closes; both count bytes, so neither can overflow
        let mut opens: usize = 0;
        let mut closes: usize = 0;
        let mut in_string = false;
        let mut escaped = false;
        let mut i: usize = start;
        while i < b.len()
            invariant
                b@ == self.buffer@,
                start <= i <= b@.len(),
                opens <= i - start,
                closes <= i - start,
                spec_boundary(b@, start as int)
                    == spec_scan(b@, i as int, opens - closes, in_string, escaped),
            decreases b@.len() - i,
        {
            let byte = b[i];
            if escaped {
                escaped = false;
            } else if byte == 0x5c && in_string {
                escaped = true;
            } else if byte == 0x22 {
                in_string = !in_string;
            } else if byte == 0x7b && !in_string {
                opens = opens + 1;
            } else if byte == 0x7d && !in_string {
                if closes + 1 == opens {
                    return Some(i + 1);
                }
                closes = closes + 1;
            }
            i = i + 1;
        }
        None
    }

    /// Appends `data` to the held bytes, cuts off every complete object from
    /// the front, and keeps the rest for the next call.
    pub fn take_frames(&mut self, data: &[u8]) -> (frames: Vec<Vec<u8>>)
        ensures
            ({
                let all = old(self)@ + data@;
                let split = spec_split(all, 0);
                &&& frames@.len() == split.0.len()
                &&& forall|k: int| 0 <= k < frames@.len() ==> #[trigger] frames@[k]@ == split.0[k]
                &&& final(self)@ == all.subrange(split.1, all.len() as int)
            }),
    {
        self.buffer.extend_from_slice(data);
        let ghost all = self.buffer@;
        assert(all =~= old(self)@ + data@) by {
            assert forall|k: int| 0 <= k < all.len() implies all[k] == (old(self)@ + data@)[k] by {
                if k >= old(self)@.len() {
                    assert(cloned::<u8>(data@[k - old(self)@.len()], all[k]));
                }
            }
        }
        let total: usize = self.buffer.len();
        let mut frames: Vec<Vec<u8>> = Vec::new();
        let mut start: usize = 0;
        loop
            invariant
                self.buffer@ == all,
                all.len() == total,
                start <= all.len(),
                frames@.len() + spec_split(all, start as int).0.len() == spec_split(all, 0).0.len(),
                forall|k: int| 0 <= k < frames@.len() ==> #[trigger] frames@[k]@ == spec_split(all, 0).0[k],
                forall|k: int| 0 <= k < spec_split(all, start as int).0.len()
                    ==> #[trigger] spec_split(all, start as int).0[k] == spec_split(all, 0).0[frames@.len() + k],
                spec_split(all, start as int).1 == spec_split(all, 0).1,
            ensures
                spec_split(all, start as int).0.len() == 0,
                start <= all.len(),
                frames@.len() == spec_split(all, 0).0.len(),
                forall|k: int| 0 <= k < frames@.len() ==> #[trigger] frames@[k]@ == spec_split(all, 0).0[k],
                spec_split(all, start as int).1 == spec_split(all, 0).1,
                self.buffer@ == all,
            decreases all.len() - start,
        {
            match self.find_json_boundary(start) {
                Some(end) => {
                    proof {
                        lemma_scan_bounds(all, start as int, 0, false, false);
                        assert(spec_boundary(all, start as int) == Some(end as int));
                    }
                    let ghost before = spec_split(all, start as int);
                    let ghost after = spec_split(all, end as int);
                    assert(before.0 =~= seq![all.subrange(start as int, end as int)] + after.0);
                    let ghost old_len = frames@.len() as int;
                    let ghost whole = spec_split(all, 0).0;
                    assert(before.0[0] == whole[old_len + 0]);
                    assert forall|k: int| 0 <= k < after.0.len() implies #[trigger] after.0[k] == whole[old_len + 1 + k] by {
                        assert(after.0[k] == before.0[k + 1]);
                        assert(before.0[k + 1] == whole[old_len + (k + 1)]);
                    }
                    let frame = copy_range(self.buffer.as_slice(), start, end);
                    frames.push(frame);
                    start = end;
                },
                None => {
                    break;
                },
            }
        }
        if start > 0 {
            let tail = self.buffer.split_off(start);
            self.buffer = tail;
        } else {
            assert(all.subrange(0, all.len() as int) =~= all);
        }
        frames
    }

    /// Appends `data`, and parses each complete object found with `serde_json`;
    /// objects that fail to parse are left out. Incomplete data stays buffered.
    pub fn parse_json_stream(&mut self, data: &[u8]) -> (r: Result<Vec<JsonValue>, PolyfillError>)
        ensures
            ({
                let all = old(self)@ + data@;
                let split = spec_split(all, 0);
                &&& r matches Ok(values) && values@ == spec_parse_frames(split.0)
                &&& final(self)@ == all.subrange(split.1, all.len() as int)
            }),
    {
        let frames = self.take_frames(data);
        let ghost fs = frames@.map_values(|f: Vec<u8>| f@);
        let mut results: Vec<JsonValue> = Vec::new();
        let mut j: usize = 0;
        assert(fs.subrange(0, fs.len() as int) =~= fs);
        while j < frames.len()
            invariant
                0 <= j <= frames@.len(),
                fs.len() == frames@.len(),
                forall|x: int| 0 <= x < frames@.len() ==> #[trigger] fs[x] == frames@[x]@,
                spec_parse_frames(fs) == results@ + spec_parse_frames(fs.subrange(j as int, fs.len() as int)),
            decreases frames@.len() - j,
        {
            let ghost rest = fs.subrange(j as int, fs.len() as int);
            assert(rest.drop_first() =~= fs.subrange(j + 1, fs.len() as int));
            match parse_json(frames[j].as_slice()) {
                Ok(v) => {
                    results.push(v);
                },
                Err(_) => {},
            }
            j = j + 1;
        }
        assert(fs.subrange(frames@.len() as int, fs.len() as int) =~= Seq::<Seq<u8>>::empty());
        proof {
            let all = old(self)@ + data@;
            assert(fs =~= spec_split(all, 0).0);
        }
        Ok(results)
    }
}

impl Default for BatchDecoder {
    fn default() -> (r: Self)
        ensures
            r@ == Seq::<u8>::empty(),
    {
        Self::new()
    }
}

/// Copies `b[start..end]` into a new vector.
pub(crate) fn copy_range(b: &[u8], start: usize, end: usize) -> (r: Vec<u8>)
    requires
        start <= end <= b@.len(),
    ensures
        r@ == b@.subrange(start as int, end as int),
{
    let mut r: Vec<u8> = Vec::with_capacity(end - start);
    let mut i: usize = start;
    while i < end
        invariant
            start <= i <= end <= b@.len(),
            r@ == b@.subrange(start as int, i as int),
        decreases end - i,
    {
        r.push(b[i]);
        i = i + 1;
    }
    r
}

} // verus!
