//! Framing of records on the wire: one record per line.

use vstd::prelude::*;
use crate::text::{concat, is_whitespace, trim, trimmed, trimmed_end, trimmed_start};

verus! {

/// The line that carries `payload`: the payload followed by a line feed.
pub open spec fn framed(payload: Seq<char>) -> Seq<char> {
    payload.push('\n')
}

/// What a line that was read carries: nothing if the line is empty, which is
/// how the end of the stream shows; else the line without the whitespace
/// around it.
pub open spec fn unframed(line: Seq<char>) -> Option<Seq<char>> {
    if line.len() == 0 {
        None
    } else {
        Some(trimmed(line))
    }
}

/// Whether `payload` can be framed and read back unchanged: it holds no line
/// feed and neither begins nor ends with whitespace. Compact JSON objects
/// are of this kind.
pub open spec fn is_record(payload: Seq<char>) -> bool {
    &&& payload.len() > 0
    &&& !is_whitespace(payload.first())
    &&& !is_whitespace(payload.last())
    &&& forall|i: int| 0 <= i < payload.len() ==> payload[i] != '\n'
}

/// The stream that sending `payloads` one after another produces.
pub open spec fn stream_of(payloads: Seq<Seq<char>>) -> Seq<char>
    decreases payloads.len(),
{
    if payloads.len() == 0 {
        Seq::empty()
    } else {
        framed(payloads.first()) + stream_of(payloads.drop_first())
    }
}

/// The length of the first line of `stream`: up to and including its first
/// line feed, or all of it if it has none.
pub open spec fn first_line_len(stream: Seq<char>) -> nat
    decreases stream.len(),
{
    if stream.len() == 0 {
        0
    } else if stream.first() == '\n' {
        1
    } else {
        1 + first_line_len(stream.drop_first())
    }
}

/// The payloads that a reader obtains from `stream` by reading line after
/// line until the stream is empty.
pub open spec fn payloads_of(stream: Seq<char>) -> Seq<Seq<char>>
    decreases stream.len(),
    via payloads_of_decreases
{
    if stream.len() == 0 {
        Seq::empty()
    } else {
        let n = first_line_len(stream) as int;
        seq![trimmed(stream.take(n))] + payloads_of(stream.skip(n))
    }
}

#[via_fn]
proof fn payloads_of_decreases(stream: Seq<char>) {
    if stream.len() > 0 {
        lemma_first_line_len_bounds(stream);
    }
}

/// A non-empty stream has a non-empty first line within it.
pub proof fn lemma_first_line_len_bounds(stream: Seq<char>)
    requires
        stream.len() > 0,
    ensures
        1 <= first_line_len(stream) <= stream.len(),
    decreases stream.len(),
{
    if stream.first() != '\n' {
        if stream.len() > 1 {
            lemma_first_line_len_bounds(stream.drop_first());
        } else {
            assert(first_line_len(stream.drop_first()) == 0);
        }
    }
}

/// The first line of a framed record followed by anything is that framed
/// record.
pub proof fn lemma_first_line_of_framed(payload: Seq<char>, rest: Seq<char>)
    requires
        forall|i: int| 0 <= i < payload.len() ==> payload[i] != '\n',
    ensures
        first_line_len(framed(payload) + rest) == payload.len() + 1,
    decreases payload.len(),
{
    let stream = framed(payload) + rest;
    if payload.len() == 0 {
        assert(stream.first() == '\n');
    } else {
        assert(stream.first() == payload[0]);
        assert(stream.drop_first() =~= framed(payload.drop_first()) + rest);
        assert forall|i: int| 0 <= i < payload.drop_first().len() implies payload.drop_first()[i]
            != '\n' by {
            assert(payload.drop_first()[i] == payload[i + 1]);
        }
        lemma_first_line_of_framed(payload.drop_first(), rest);
    }
}

/// Framing a record and reading the line back gives the record.
pub proof fn lemma_unframe_framed(payload: Seq<char>)
    requires
        is_record(payload),
    ensures
        unframed(framed(payload)) == Some(payload),
{
    let line = framed(payload);
    assert(line.first() == payload.first());
    assert(trimmed_start(line) == line);
    assert(line.drop_last() =~= payload);
    assert(trimmed_end(line) == trimmed_end(payload));
    assert(trimmed_end(payload) == payload);
}

/// A reader of the stream of any records obtains exactly those records, in
/// order, none split and none merged.
pub proof fn lemma_stream_round_trip(payloads: Seq<Seq<char>>)
    requires
        forall|i: int| 0 <= i < payloads.len() ==> is_record(#[trigger] payloads[i]),
    ensures
        payloads_of(stream_of(payloads)) == payloads,
    decreases payloads.len(),
{
    if payloads.len() == 0 {
        assert(payloads_of(stream_of(payloads)) =~= payloads);
    } else {
        let head = payloads.first();
        let tail = payloads.drop_first();
        let stream = stream_of(payloads);
        assert(is_record(payloads[0]));
        assert forall|i: int| 0 <= i < tail.len() implies is_record(#[trigger] tail[i]) by {
            assert(tail[i] == payloads[i + 1]);
        }
        lemma_stream_round_trip(tail);
        lemma_first_line_of_framed(head, stream_of(tail));
        let n = first_line_len(stream) as int;
        assert(stream.take(n) =~= framed(head));
        assert(stream.skip(n) =~= stream_of(tail));
        lemma_unframe_framed(head);
        assert(payloads_of(stream) =~= payloads);
    }
}

/// The line that carries `payload`.
pub fn frame(payload: &str) -> (line: String)
    ensures
        line@ == framed(payload@),
{
    proof {
        reveal_strlit("\n");
    }
    let line = concat(payload, "\n");
    assert(line@ =~= framed(payload@));
    line
}

/// What a line that was read carries: `None` for the empty line that marks
/// the end of the stream, else the line without the whitespace around it.
pub fn unframe(line: &str) -> (payload: Option<String>)
    ensures
        payload is Some == unframed(line@) is Some,
        payload matches Some(text) ==> unframed(line@) == Some(text@),
{
    if line.is_empty() {
        None
    } else {
        Some(trim(line).to_owned())
    }
}

} // verus!
