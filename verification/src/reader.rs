//! The bounded content reader.
//!
//! A response body is read as a finite sequence of text lines: each
//! line is the byte run up to and including the next newline, decoded
//! as UTF-8.  A decode failure yields one failure item, after which
//! reading stops; and after a fixed maximum line count the sequence
//! ends early regardless of remaining content, so arbitrarily large or
//! adversarial bodies cost bounded memory and iteration.

use vstd::prelude::*;

verus! {

use vstd::utf8::valid_utf8;
use vstd::utf8::decode_utf8;

/// The most lines one body yields.
pub const MAX_LINE_COUNT: usize = 1024;

/// One item of a body read as lines: a decoded line, or the one failure
/// item after which reading stops.
pub enum BodyLine {
    Text(String),
    DecodeError,
}

impl View for BodyLine {
    type V = Option<Seq<char>>;

    open spec fn view(&self) -> Option<Seq<char>> {
        match self {
            BodyLine::Text(s) => Some(s@),
            BodyLine::DecodeError => None,
        }
    }
}

/// The views of a sequence of read lines.
pub open spec fn line_views(s: Seq<BodyLine>) -> Seq<Option<Seq<char>>> {
    s.map_values(|l: BodyLine| l@)
}

/// Index of the first occurrence of `x` in `b`; the length when absent.
pub open spec fn byte_index(b: Seq<u8>, x: u8) -> int
    decreases b.len(),
{
    if b.len() == 0 {
        0
    } else if b[0] == x {
        0
    } else {
        1 + byte_index(b.skip(1), x)
    }
}

/// `byte_index` points at the first occurrence, or at the end.
pub proof fn lemma_byte_index(b: Seq<u8>, x: u8)
    ensures
        0 <= byte_index(b, x) <= b.len(),
        byte_index(b, x) < b.len() ==> b[byte_index(b, x)] == x,
        forall|j: int| 0 <= j < byte_index(b, x) ==> b[j] != x,
    decreases b.len(),
{
    if b.len() != 0 && b[0] != x {
        lemma_byte_index(b.skip(1), x);
        assert forall|j: int| 0 <= j < byte_index(b, x) implies b[j] != x by {
            if j > 0 {
                assert(b.skip(1)[j - 1] == b[j]);
            }
        }
        if byte_index(b, x) < b.len() {
            assert(b.skip(1)[byte_index(b, x) - 1] == b[byte_index(b, x)]);
        }
    }
}

/// A position before which `x` never occurs, and at which `x` occurs or
/// the bytes end, is exactly `byte_index`.
pub proof fn lemma_byte_index_unique(b: Seq<u8>, x: u8, i: int)
    requires
        0 <= i <= b.len(),
        forall|j: int| 0 <= j < i ==> b[j] != x,
        i < b.len() ==> b[i] == x,
    ensures
        byte_index(b, x) == i,
{
    lemma_byte_index(b, x);
    if byte_index(b, x) < i {
        assert(b[byte_index(b, x)] != x);
    }
    if i < byte_index(b, x) {
        assert(b[i] != x);
    }
}

/// Index just past the first newline byte, or the end of the bytes.
pub open spec fn line_end(b: Seq<u8>) -> int {
    let i = byte_index(b, 10u8);
    if 0 <= i && i < b.len() {
        i + 1
    } else {
        b.len() as int
    }
}

/// The lines of a body, at most `max` of them: each line runs up to and
/// including the next newline and decodes to its characters; an invalid
/// line becomes a single `None` after which nothing follows.
pub open spec fn spec_body_lines(b: Seq<u8>, max: nat) -> Seq<Option<Seq<char>>>
    decreases b.len(),
{
    if b.len() == 0 || max == 0 {
        Seq::<Option<Seq<char>>>::empty()
    } else {
        let e = line_end(b);
        let l = b.take(e);
        if valid_utf8(l) {
            seq![Some(decode_utf8(l))] + spec_body_lines(b.skip(e), (max - 1) as nat)
        } else {
            seq![None]
        }
    }
}

/// Law: a body never yields more lines than the given maximum, however
/// long or unterminated it is.
pub proof fn lemma_body_lines_bounded(b: Seq<u8>, max: nat)
    ensures
        spec_body_lines(b, max).len() <= max,
    decreases b.len(),
{
    if b.len() != 0 && max != 0 {
        let e = line_end(b);
        if valid_utf8(b.take(e)) {
            lemma_body_lines_bounded(b.skip(e), (max - 1) as nat);
        }
    }
}

/// Relies on `core::str::from_utf8`: it accepts exactly the valid
/// UTF-8 byte sequences, and the accepted string reads back as those
/// bytes, so its characters are their decoding.
#[verifier::external_body]
fn decode_line(bytes: &Vec<u8>) -> (r: Option<String>)
    ensures
        r is Some <==> valid_utf8(bytes@),
        r matches Some(s) ==> s@ == decode_utf8(bytes@),
{
    match core::str::from_utf8(bytes.as_slice()) {
        Ok(s) => Some(s.to_owned()),
        Err(_) => None,
    }
}

/// Read a response body as at most `MAX_LINE_COUNT` lines.
pub fn read_lines(body: &Vec<u8>) -> (r: Vec<BodyLine>)
    ensures
        r@.len() <= MAX_LINE_COUNT,
        line_views(r@) == spec_body_lines(body@, MAX_LINE_COUNT as nat),
{
    let n = body.len();
    let mut items: Vec<BodyLine> = Vec::new();
    let mut pos: usize = 0;
    proof {
        assert(body@.skip(0) =~= body@);
        assert(line_views(items@) =~= Seq::<Option<Seq<char>>>::empty());
    }
    while pos < n && items.len() < MAX_LINE_COUNT
        invariant
            pos <= n,
            n == body@.len(),
            items@.len() <= MAX_LINE_COUNT,
            pos == n ==> items@.len() <= MAX_LINE_COUNT,
            line_views(items@) + spec_body_lines(
                body@.skip(pos as int),
                (MAX_LINE_COUNT - items@.len()) as nat,
            ) == spec_body_lines(body@, MAX_LINE_COUNT as nat),
        decreases n - pos,
    {
        let ghost rest = body@.skip(pos as int);
        // find the end of the current line
        let mut e: usize = pos;
        while e < n && body[e] != 10
            invariant
                pos <= e <= n,
                n == body@.len(),
                forall|j: int| pos <= j < e ==> body@[j] != 10,
            decreases n - e,
        {
            e += 1;
        }
        let line_len = if e < n {
            e + 1 - pos
        } else {
            e - pos
        };
        proof {
            assert forall|j: int| 0 <= j < e - pos implies rest[j] != 10 by {
                assert(rest[j] == body@[pos + j]);
            }
            if e < n {
                assert(rest[e - pos] == body@[e as int]);
            }
            lemma_byte_index_unique(rest, 10u8, e as int - pos as int);
            assert(line_end(rest) == line_len as int);
        }
        // copy the line's bytes
        let mut line: Vec<u8> = Vec::new();
        let mut k: usize = 0;
        while k < line_len
            invariant
                k <= line_len,
                pos + line_len <= n,
                n == body@.len(),
                line@.len() == k,
                forall|j: int| 0 <= j < k ==> line@[j] == body@[pos + j],
            decreases line_len - k,
        {
            line.push(body[pos + k]);
            k += 1;
        }
        proof {
            assert(line@ =~= rest.take(line_len as int));
        }
        match decode_line(&line) {
            Some(text) => {
                let ghost prev = items@;
                items.push(BodyLine::Text(text));
                proof {
                    assert(line_views(items@) =~= line_views(prev) + seq![
                        Some(decode_utf8(rest.take(line_len as int))),
                    ]);
                    assert(rest.skip(line_end(rest)) =~= body@.skip(pos as int + line_len as int));
                    assert(line_views(items@) + spec_body_lines(
                        body@.skip(pos as int + line_len as int),
                        (MAX_LINE_COUNT - items@.len()) as nat,
                    ) =~= spec_body_lines(body@, MAX_LINE_COUNT as nat));
                }
                pos = pos + line_len;
            },
            None => {
                let ghost prev = items@;
                items.push(BodyLine::DecodeError);
                proof {
                    assert(spec_body_lines(rest, (MAX_LINE_COUNT - prev.len()) as nat) =~= seq![
                        None::<Seq<char>>,
                    ]);
                    assert(line_views(items@) =~= line_views(prev) + seq![None::<Seq<char>>]);
                    assert(line_views(items@) =~= spec_body_lines(body@, MAX_LINE_COUNT as nat));
                }
                return items;
            },
        }
    }
    proof {
        if pos == n {
            assert(body@.skip(pos as int) =~= Seq::<u8>::empty());
        }
        assert(spec_body_lines(body@.skip(pos as int), (MAX_LINE_COUNT - items@.len()) as nat)
            =~= Seq::<Option<Seq<char>>>::empty());
        assert(line_views(items@) + Seq::<Option<Seq<char>>>::empty() =~= line_views(items@));
    }
    items
}

} // verus!
