//! A cursor over an append-only, rotatable text stream.
//!
//! The cursor tracks the byte offset of the next unread byte. Its
//! generation marker is the last observed stream length — which always
//! equals the offset, because every read consumes to the end of the
//! stream — so rotation (replacement or truncation by an external
//! writer) is detected as a shrink of the stream: whenever the stream
//! is shorter than the stored offset, the cursor resets to offset 0 and
//! reads the whole stream again. This is the length-shrink detection
//! strategy; a rotation that leaves the new stream at least as long as
//! the old one is only caught at the next shrink.
//!
//! Each read yields exactly the bytes appended since the last read (or
//! since the start, after a detected rotation), decoded as lines: split
//! at line feeds, with a carriage return before a line feed stripped.
//! Lines that are not valid UTF-8 are skipped rather than failing the
//! whole read.

use vstd::prelude::*;

use crate::window::line_views;

verus! {

use vstd::utf8::valid_utf8;

/// Splits at each line feed, not stripping anything: `n` line feeds
/// yield `n + 1` segments, the last being the bytes after the final
/// line feed (possibly none).
pub open spec fn raw_split(bytes: Seq<u8>) -> Seq<Seq<u8>>
    decreases bytes.len(),
{
    if bytes.len() == 0 {
        seq![Seq::<u8>::empty()]
    } else if bytes[0] == 10u8 {
        seq![Seq::<u8>::empty()] + raw_split(bytes.drop_first())
    } else {
        let rest = raw_split(bytes.drop_first());
        rest.update(0, seq![bytes[0]] + rest[0])
    }
}

/// Drops a single trailing carriage return, if present.
pub open spec fn strip_cr(line: Seq<u8>) -> Seq<u8> {
    if line.len() > 0 && line.last() == 13u8 {
        line.drop_last()
    } else {
        line
    }
}

/// The lines of a byte stream, as a line-oriented reader yields them:
/// each segment terminated by a line feed, with a carriage return
/// before the line feed stripped, plus the unterminated tail segment
/// as-is when it is non-empty.
pub open spec fn split_lines(bytes: Seq<u8>) -> Seq<Seq<u8>> {
    let raw = raw_split(bytes);
    let completed = raw.drop_last().map_values(|l: Seq<u8>| strip_cr(l));
    if raw.last().len() == 0 {
        completed
    } else {
        completed + seq![raw.last()]
    }
}

/// The lines kept after decoding: those that are valid UTF-8.
pub open spec fn kept_lines(bytes: Seq<u8>) -> Seq<Seq<u8>> {
    split_lines(bytes).filter(|l: Seq<u8>| valid_utf8(l))
}

/// Where a read starts, given the stored offset and the stream's
/// current length: at the offset normally, at 0 after a detected
/// rotation (the stream shrank below the offset).
pub open spec fn read_start(offset: nat, len: nat) -> nat {
    if len < offset {
        0
    } else {
        offset
    }
}

/// The lines one read of a stream with the given contents yields.
pub open spec fn fresh_lines(offset: nat, content: Seq<u8>) -> Seq<Seq<u8>> {
    kept_lines(content.skip(read_start(offset, content.len()) as int))
}

/// `raw_split` always yields at least one segment.
pub proof fn lemma_raw_split_nonempty(bytes: Seq<u8>)
    ensures
        raw_split(bytes).len() >= 1,
    decreases bytes.len(),
{
    if bytes.len() != 0 {
        lemma_raw_split_nonempty(bytes.drop_first());
    }
}

/// Appending one byte to the stream appends a fresh empty segment (for
/// a line feed) or extends the last segment (for any other byte).
pub proof fn lemma_raw_split_push(bytes: Seq<u8>, b: u8)
    ensures
        raw_split(bytes.push(b)) == if b == 10u8 {
            raw_split(bytes).push(Seq::<u8>::empty())
        } else {
            let r = raw_split(bytes);
            r.update(r.len() - 1, r.last().push(b))
        },
    decreases bytes.len(),
{
    reveal_with_fuel(raw_split, 4);
    lemma_raw_split_nonempty(bytes);
    if bytes.len() == 0 {
        assert(bytes.push(b).drop_first() =~= Seq::<u8>::empty());
        if b == 10u8 {
            assert(raw_split(bytes.push(b)) =~~= raw_split(bytes).push(Seq::<u8>::empty()));
        } else {
            let r = raw_split(bytes);
            assert(seq![b] + raw_split(bytes.push(b).drop_first())[0] =~= r.last().push(b));
            assert(raw_split(bytes.push(b)) =~~= r.update(r.len() - 1, r.last().push(b)));
        }
    } else {
        lemma_raw_split_nonempty(bytes.drop_first());
        lemma_raw_split_push(bytes.drop_first(), b);
        assert(bytes.push(b).drop_first() =~= bytes.drop_first().push(b));
        if b == 10u8 {
            assert(raw_split(bytes.push(b)) =~~= raw_split(bytes).push(Seq::<u8>::empty()));
        } else {
            let r = raw_split(bytes);
            assert(raw_split(bytes.push(b)) =~~= r.update(r.len() - 1, r.last().push(b)));
        }
    }
}

/// Completes a line at a line feed: drops one trailing carriage return.
fn finish_line(line: Vec<u8>) -> (r: Vec<u8>)
    ensures
        r@ == strip_cr(line@),
{
    let mut line = line;
    if line.len() > 0 && line[line.len() - 1] == 13u8 {
        let _ = line.pop();
    }
    line
}

/// Splits the bytes of `stream` from position `start` on into lines.
fn split_stream(stream: &[u8], start: usize) -> (r: Vec<Vec<u8>>)
    requires
        start <= stream@.len(),
    ensures
        line_views(r@) == split_lines(stream@.skip(start as int)),
{
    let ghost s = stream@.skip(start as int);
    let len: usize = stream.len();
    let mut out: Vec<Vec<u8>> = Vec::new();
    let mut cur: Vec<u8> = Vec::new();
    let mut i: usize = start;
    while i < len
        invariant
            start <= i <= len,
            len == stream@.len(),
            s == stream@.skip(start as int),
            raw_split(s.take(i - start)).len() == out@.len() + 1,
            forall|k: int|
                0 <= k < out@.len() ==> #[trigger] out@[k]@ == strip_cr(
                    raw_split(s.take(i - start))[k],
                ),
            cur@ == raw_split(s.take(i - start)).last(),
        decreases len - i,
    {
        let b = stream[i];
        proof {
            let j = i - start;
            assert(s.take(j + 1) =~= s.take(j).push(s[j]));
            assert(s[j] == stream@[i as int]);
            lemma_raw_split_nonempty(s.take(j));
            lemma_raw_split_push(s.take(j), b);
        }
        if b == 10u8 {
            let done = finish_line(cur);
            out.push(done);
            cur = Vec::new();
        } else {
            cur.push(b);
        }
        i = i + 1;
    }
    proof {
        assert(s.take(len - start) =~= s);
    }
    if cur.len() > 0 {
        out.push(cur);
    }
    proof {
        let raw = raw_split(s);
        let completed = raw.drop_last().map_values(|l: Seq<u8>| strip_cr(l));
        assert(forall|k: int| 0 <= k < raw.len() - 1 ==> raw.drop_last()[k] == raw[k]);
        if raw.last().len() == 0 {
            assert(line_views(out@) =~= completed);
        } else {
            assert(line_views(out@) =~= completed + seq![raw.last()]);
        }
    }
    out
}

/// Relies on `core::str::from_utf8`: it returns `Ok` exactly when its
/// input is a valid UTF-8 encoding, here stated with vstd's own model
/// of UTF-8 validity.
#[verifier::external_body]
fn utf8_check(bytes: &[u8]) -> (r: bool)
    ensures
        r == valid_utf8(bytes@),
{
    match core::str::from_utf8(bytes) {
        Ok(_) => true,
        Err(_) => false,
    }
}

/// Byte-for-byte copy of an owned line.
fn copy_line(line: &Vec<u8>) -> (r: Vec<u8>)
    ensures
        r@ == line@,
{
    let mut r: Vec<u8> = Vec::new();
    let n: usize = line.len();
    let mut i: usize = 0;
    while i < n
        invariant
            0 <= i <= n,
            n == line@.len(),
            r@ == line@.take(i as int),
        decreases n - i,
    {
        r.push(line[i]);
        proof {
            assert(line@.take(i + 1) =~= line@.take(i as int).push(line@[i as int]));
        }
        i = i + 1;
    }
    proof {
        assert(line@.take(n as int) =~= line@);
    }
    r
}

/// A read position into an append-only text stream, with rotation
/// detection by the length-shrink strategy (see the module
/// documentation).
pub struct LogCursor {
    /// Offset of the next unread byte; also the generation marker, as
    /// the last observed stream length.
    pub offset: usize,
}

impl LogCursor {
    /// A cursor at the start of the stream.
    pub fn new() -> (c: LogCursor)
        ensures
            c.offset == 0,
    {
        LogCursor { offset: 0 }
    }

    /// One read of the stream, whose entire current contents are
    /// `content`. Detects rotation (the stream shrank below the stored
    /// offset), yields exactly the lines appended since the last read —
    /// all lines currently present, after a rotation — keeping those
    /// that decode as UTF-8, and advances the offset to the stream's
    /// end. The second component reports whether a rotation was
    /// detected, so the caller can log the resynchronisation.
    pub fn read_new(&mut self, content: &Vec<u8>) -> (r: (Vec<Vec<u8>>, bool))
        ensures
            final(self).offset == content@.len(),
            r.1 == (content@.len() < old(self).offset),
            line_views(r.0@) == fresh_lines(old(self).offset as nat, content@),
    {
        let rotated: bool = content.len() < self.offset;
        let start: usize = if rotated {
            0
        } else {
            self.offset
        };
        let all = split_stream(content.as_slice(), start);
        let ghost lv = line_views(all@);
        let mut kept: Vec<Vec<u8>> = Vec::new();
        let n: usize = all.len();
        let mut i: usize = 0;
        while i < n
            invariant
                0 <= i <= n,
                n == all@.len(),
                lv == line_views(all@),
                lv.len() == n,
                forall|k: int| 0 <= k < n ==> lv[k] == all@[k]@,
                line_views(kept@) == lv.take(i as int).filter(|l: Seq<u8>| valid_utf8(l)),
            decreases n - i,
        {
            let line = &all[i];
            let keep = utf8_check(line.as_slice());
            proof {
                reveal(Seq::filter);
                assert(lv.take(i + 1).drop_last() =~= lv.take(i as int));
                assert(lv.take(i + 1).last() == lv[i as int]);
            }
            if keep {
                let copied = copy_line(line);
                kept.push(copied);
                proof {
                    assert(line_views(kept@) =~= lv.take(i as int).filter(
                        |l: Seq<u8>| valid_utf8(l),
                    ).push(lv[i as int]));
                }
            }
            i = i + 1;
        }
        proof {
            assert(lv.take(n as int) =~= lv);
        }
        self.offset = content.len();
        (kept, rotated)
    }
}

/// Rotation recovery: when the stream shrank below the stored offset,
/// the next read starts at offset 0 and yields every (decodable) line
/// currently present in the stream — nothing is permanently lost.
pub proof fn lemma_rotation_recovery(offset: nat, content: Seq<u8>)
    requires
        content.len() < offset,
    ensures
        read_start(offset, content.len()) == 0,
        fresh_lines(offset, content) == kept_lines(content),
{
    assert(content.skip(0) =~= content);
}

} // verus!
