//! Records in a byte stream: runs of bytes separated by single NUL bytes.
//!
//! Paths travel as such records, since a file name may hold any byte but
//! NUL. The last record need not end in a NUL, and empty records count for
//! nothing.

use vstd::prelude::*;

verus! {

/// The byte that ends a record.
pub const NUL: u8 = 0;

/// The number of bytes before the first NUL, or the length where there is
/// none.
pub open spec fn record_end(s: Seq<u8>) -> int
    decreases s.len(),
{
    if s.len() == 0 || s[0] == NUL {
        0
    } else {
        1 + record_end(s.drop_first())
    }
}

/// The first NUL lies inside the bytes or right behind them.
pub proof fn lemma_record_end_bounds(s: Seq<u8>)
    ensures
        0 <= record_end(s) <= s.len(),
        record_end(s) < s.len() ==> s[record_end(s)] == NUL,
        forall|j: int| 0 <= j < record_end(s) ==> s[j] != NUL,
    decreases s.len(),
{
    if !(s.len() == 0 || s[0] == NUL) {
        let rest = s.drop_first();
        lemma_record_end_bounds(rest);
        assert forall|j: int| 0 <= j < record_end(s) implies s[j] != NUL by {
            if j > 0 {
                assert(s[j] == rest[j - 1]);
            }
        }
    }
}

/// The place of the first NUL is the first place that holds one.
pub proof fn lemma_record_end_is(s: Seq<u8>, k: int)
    requires
        0 <= k <= s.len(),
        forall|j: int| 0 <= j < k ==> s[j] != NUL,
        k < s.len() ==> s[k] == NUL,
    ensures
        record_end(s) == k,
    decreases s.len(),
{
    if k > 0 {
        let rest = s.drop_first();
        assert forall|j: int| 0 <= j < k - 1 implies rest[j] != NUL by {
            assert(rest[j] == s[j + 1]);
        }
        lemma_record_end_is(rest, k - 1);
    }
}

/// What follows the first record and its NUL.
pub open spec fn after_record(s: Seq<u8>) -> Seq<u8> {
    if record_end(s) < s.len() {
        s.skip(record_end(s) + 1)
    } else {
        Seq::empty()
    }
}

/// The records of a byte stream, in order, the empty ones left out.
pub open spec fn records(s: Seq<u8>) -> Seq<Seq<u8>>
    decreases s.len(),
{
    if s.len() == 0 {
        Seq::empty()
    } else {
        proof {
            lemma_record_end_bounds(s);
        }
        if record_end(s) == 0 {
            records(after_record(s))
        } else {
            seq![s.take(record_end(s))] + records(after_record(s))
        }
    }
}

/// The length of the first chunk: the first record with its NUL, or all the
/// bytes where they hold no NUL.
pub open spec fn chunk_len(s: Seq<u8>) -> int {
    if record_end(s) < s.len() {
        record_end(s) + 1
    } else {
        s.len() as int
    }
}

/// The chunks of a byte stream, in order: each ends with the NUL of its
/// record, but the last one where the stream does not end in a NUL.
pub open spec fn chunks(s: Seq<u8>) -> Seq<Seq<u8>>
    decreases s.len(),
{
    if s.len() == 0 {
        Seq::empty()
    } else {
        proof {
            lemma_record_end_bounds(s);
        }
        seq![s.take(chunk_len(s))] + chunks(s.skip(chunk_len(s)))
    }
}

/// The parts put one behind the other.
pub open spec fn joined(parts: Seq<Seq<u8>>) -> Seq<u8>
    decreases parts.len(),
{
    if parts.len() == 0 {
        Seq::empty()
    } else {
        parts[0] + joined(parts.drop_first())
    }
}

/// Passing the chunks of a stream on, one after the other, gives back the
/// stream byte for byte.
pub proof fn lemma_chunks_rejoin(s: Seq<u8>)
    ensures
        joined(chunks(s)) == s,
    decreases s.len(),
{
    if s.len() > 0 {
        lemma_record_end_bounds(s);
        let head = s.take(chunk_len(s));
        let rest = s.skip(chunk_len(s));
        lemma_chunks_rejoin(rest);
        let parts = chunks(s);
        assert(parts[0] == head);
        assert(parts.drop_first() =~= chunks(rest));
        assert(head + rest =~= s);
    }
}

/// A chunk without the NUL that ends it.
pub open spec fn without_terminator(chunk: Seq<u8>) -> Seq<u8> {
    if chunk.len() > 0 && chunk.last() == NUL {
        chunk.drop_last()
    } else {
        chunk
    }
}

/// The records in a list of chunks: each chunk without its NUL, the empty
/// ones left out.
pub open spec fn stripped(parts: Seq<Seq<u8>>) -> Seq<Seq<u8>>
    decreases parts.len(),
{
    if parts.len() == 0 {
        Seq::empty()
    } else if without_terminator(parts[0]).len() == 0 {
        stripped(parts.drop_first())
    } else {
        seq![without_terminator(parts[0])] + stripped(parts.drop_first())
    }
}

/// Reading a stream chunk by chunk finds the same records as splitting it
/// as a whole.
pub proof fn lemma_records_of_chunks(s: Seq<u8>)
    ensures
        records(s) == stripped(chunks(s)),
    decreases s.len(),
{
    if s.len() > 0 {
        lemma_record_end_bounds(s);
        let end = record_end(s);
        let head = s.take(chunk_len(s));
        let rest = s.skip(chunk_len(s));
        lemma_records_of_chunks(rest);
        let parts = chunks(s);
        assert(parts[0] == head);
        assert(parts.drop_first() =~= chunks(rest));
        assert(rest =~= after_record(s));
        if end < s.len() {
            assert(head.last() == NUL);
            assert(head.drop_last() =~= s.take(end));
        } else {
            assert(head.last() != NUL);
            assert(head =~= s.take(end));
        }
        assert(without_terminator(head) == s.take(end));
    }
}

/// No chunk of a stream is empty.
pub proof fn lemma_chunks_are_not_empty(s: Seq<u8>)
    ensures
        forall|i: int| 0 <= i < chunks(s).len() ==> (#[trigger] chunks(s)[i]).len() > 0,
    decreases s.len(),
{
    if s.len() > 0 {
        lemma_record_end_bounds(s);
        let rest = s.skip(chunk_len(s));
        lemma_chunks_are_not_empty(rest);
        let parts = chunks(s);
        assert forall|i: int| 0 <= i < parts.len() implies (#[trigger] parts[i]).len() > 0 by {
            if i > 0 {
                assert(parts[i] == chunks(rest)[i - 1]);
            }
        }
    }
}

/// The models of a list of byte buffers, in the same order.
pub open spec fn buffers_model(buffers: Seq<Vec<u8>>) -> Seq<Seq<u8>> {
    Seq::new(buffers.len(), |i: int| buffers[i]@)
}

/// The models of a list of texts, in the same order.
pub open spec fn texts_model(texts: Seq<String>) -> Seq<Seq<char>> {
    Seq::new(texts.len(), |i: int| texts[i]@)
}

/// The end of the chunk that starts at `from`: the place behind its NUL, or
/// the end of the input.
pub fn chunk_end(input: &Vec<u8>, from: usize) -> (end: usize)
    requires
        from < input@.len(),
    ensures
        from < end <= input@.len(),
        end - from == chunk_len(input@.skip(from as int)),
{
    let ghost tail = input@.skip(from as int);
    let mut i: usize = from;
    while i < input.len() && input[i] != NUL
        invariant
            from <= i <= input@.len(),
            tail == input@.skip(from as int),
            forall|j: int| 0 <= j < i - from ==> tail[j] != NUL,
        decreases input@.len() - i,
    {
        i = i + 1;
    }
    proof {
        lemma_record_end_is(tail, i - from);
    }
    if i < input.len() {
        i + 1
    } else {
        i
    }
}

/// A copy of the bytes from `from` up to `to`.
pub fn copy_range(input: &Vec<u8>, from: usize, to: usize) -> (piece: Vec<u8>)
    requires
        from <= to <= input@.len(),
    ensures
        piece@ == input@.subrange(from as int, to as int),
{
    let mut piece: Vec<u8> = Vec::new();
    let mut i: usize = from;
    while i < to
        invariant
            from <= i <= to <= input@.len(),
            piece@ == input@.subrange(from as int, i as int),
        decreases to - i,
    {
        piece.push(input[i]);
        assert(piece@ =~= input@.subrange(from as int, i as int + 1));
        i = i + 1;
    }
    piece
}

/// Splits a byte stream into its chunks.
pub fn split_chunks(input: &Vec<u8>) -> (parts: Vec<Vec<u8>>)
    ensures
        buffers_model(parts@) == chunks(input@),
{
    let mut parts: Vec<Vec<u8>> = Vec::new();
    let mut from: usize = 0;
    assert(input@.skip(0) =~= input@);
    assert(buffers_model(parts@) =~= Seq::<Seq<u8>>::empty());
    while from < input.len()
        invariant
            from <= input@.len(),
            chunks(input@) == buffers_model(parts@) + chunks(input@.skip(from as int)),
        decreases input@.len() - from,
    {
        let end = chunk_end(input, from);
        let piece = copy_range(input, from, end);
        proof {
            let tail = input@.skip(from as int);
            assert(tail.take(chunk_len(tail)) =~= piece@);
            assert(tail.skip(chunk_len(tail)) =~= input@.skip(end as int));
            assert(buffers_model(parts@.push(piece)) =~= buffers_model(parts@) + seq![piece@]);
        }
        parts.push(piece);
        from = end;
    }
    assert(chunks(input@.skip(from as int)) =~= Seq::<Seq<u8>>::empty());
    parts
}

/// Splits a byte stream into its records, the empty ones left out.
pub fn split_records(input: &Vec<u8>) -> (found: Vec<Vec<u8>>)
    ensures
        buffers_model(found@) == records(input@),
{
    let mut found: Vec<Vec<u8>> = Vec::new();
    let mut from: usize = 0;
    assert(input@.skip(0) =~= input@);
    assert(buffers_model(found@) =~= Seq::<Seq<u8>>::empty());
    while from < input.len()
        invariant
            from <= input@.len(),
            records(input@) == buffers_model(found@) + records(input@.skip(from as int)),
        decreases input@.len() - from,
    {
        let end = chunk_end(input, from);
        let ghost tail = input@.skip(from as int);
        proof {
            lemma_record_end_bounds(tail);
        }
        let stop: usize = if input[end - 1] == NUL {
            end - 1
        } else {
            end
        };
        proof {
            if record_end(tail) < tail.len() {
                assert(tail[record_end(tail)] == input@[end - 1]);
            } else {
                assert(end == input@.len());
                if tail.len() > 0 {
                    assert(tail[tail.len() - 1] == input@[end - 1]);
                }
            }
            assert(stop - from == record_end(tail));
            assert(after_record(tail) =~= input@.skip(end as int));
        }
        if stop > from {
            let piece = copy_range(input, from, stop);
            proof {
                assert(tail.take(record_end(tail)) =~= piece@);
                assert(buffers_model(found@.push(piece)) =~= buffers_model(found@) + seq![piece@]);
            }
            found.push(piece);
        }
        from = end;
    }
    assert(records(input@.skip(from as int)) =~= Seq::<Seq<u8>>::empty());
    found
}

/// Passes a byte stream through chunk by chunk. What comes out is what went
/// in, byte for byte.
pub fn passthrough(input: &Vec<u8>) -> (output: Vec<u8>)
    ensures
        output@ == input@,
        output@ == joined(chunks(input@)),
{
    let parts = split_chunks(input);
    let mut output: Vec<u8> = Vec::new();
    let mut i: usize = 0;
    proof {
        lemma_chunks_rejoin(input@);
    }
    let ghost all = buffers_model(parts@);
    assert(all.skip(0) =~= all);
    while i < parts.len()
        invariant
            i <= parts@.len(),
            all == buffers_model(parts@),
            output@ + joined(all.skip(i as int)) == joined(all),
        decreases parts@.len() - i,
    {
        let ghost before = output@;
        let part = &parts[i];
        let mut k: usize = 0;
        while k < part.len()
            invariant
                k <= part@.len(),
                output@ == before + part@.take(k as int),
            decreases part@.len() - k,
        {
            output.push(part[k]);
            assert(output@ =~= before + part@.take(k as int + 1));
            k = k + 1;
        }
        proof {
            assert(part@.take(part@.len() as int) =~= part@);
            let rest = all.skip(i as int);
            assert(rest[0] == part@);
            assert(rest.drop_first() =~= all.skip(i as int + 1));
            assert((before + part@) + joined(all.skip(i as int + 1)) =~= before + (part@ + joined(
                all.skip(i as int + 1),
            )));
        }
        i = i + 1;
    }
    assert(joined(all.skip(parts@.len() as int)) =~= Seq::<u8>::empty());
    assert(output@ =~= output@ + Seq::<u8>::empty());
    output
}

/// `String::from_utf8` converts bytes to a string. It succeeds exactly when
/// the bytes are valid UTF-8, and the string then holds the characters that
/// the bytes encode.
#[verifier::external_body]
fn string_from_utf8(bytes: Vec<u8>) -> (text: Option<String>)
    ensures
        text is Some <==> vstd::utf8::valid_utf8(bytes@),
        text matches Some(t) ==> t@ == vstd::utf8::decode_utf8(bytes@),
{
    String::from_utf8(bytes).ok()
}

/// The path in a record, or nothing where the record is not valid UTF-8.
pub open spec fn path_of(record: Seq<u8>) -> Option<Seq<char>> {
    if vstd::utf8::valid_utf8(record) {
        Some(vstd::utf8::decode_utf8(record))
    } else {
        None
    }
}

/// The path in a record. A record that is not valid UTF-8 holds none, and
/// is passed over without a word.
pub fn record_path(record: Vec<u8>) -> (path: Option<String>)
    ensures
        crate::text::optional(path) == path_of(record@),
{
    string_from_utf8(record)
}

/// The paths in the records, in order; records that are not valid UTF-8
/// are left out.
pub open spec fn paths(found: Seq<Seq<u8>>) -> Seq<Seq<char>>
    decreases found.len(),
{
    if found.len() == 0 {
        Seq::empty()
    } else {
        match path_of(found.last()) {
            Some(path) => paths(found.drop_last()).push(path),
            None => paths(found.drop_last()),
        }
    }
}

/// Where every record is valid UTF-8, every record gives its path.
pub proof fn lemma_paths_all_valid(found: Seq<Seq<u8>>)
    requires
        forall|i: int| 0 <= i < found.len() ==> vstd::utf8::valid_utf8(#[trigger] found[i]),
    ensures
        paths(found) == found.map_values(|r: Seq<u8>| vstd::utf8::decode_utf8(r)),
    decreases found.len(),
{
    let decoded = found.map_values(|r: Seq<u8>| vstd::utf8::decode_utf8(r));
    if found.len() == 0 {
        assert(paths(found) =~= decoded);
    } else {
        let before = found.drop_last();
        assert forall|i: int| 0 <= i < before.len() implies vstd::utf8::valid_utf8(
            #[trigger] before[i],
        ) by {
            assert(before[i] == found[i]);
        }
        lemma_paths_all_valid(before);
        assert(vstd::utf8::valid_utf8(found[found.len() - 1]));
        assert(paths(found) =~= decoded);
    }
}

/// Where exactly one record, the one at `k`, is not valid UTF-8, exactly
/// that record is skipped: the paths are those of all the other records, in
/// order.
pub proof fn lemma_skips_exactly_invalid(found: Seq<Seq<u8>>, k: int)
    requires
        0 <= k < found.len(),
        !vstd::utf8::valid_utf8(found[k]),
        forall|i: int|
            0 <= i < found.len() && i != k ==> vstd::utf8::valid_utf8(#[trigger] found[i]),
    ensures
        paths(found) == found.remove(k).map_values(|r: Seq<u8>| vstd::utf8::decode_utf8(r)),
        paths(found).len() == found.len() - 1,
    decreases found.len(),
{
    let before = found.drop_last();
    let others = found.remove(k);
    let decoded = others.map_values(|r: Seq<u8>| vstd::utf8::decode_utf8(r));
    if k == found.len() - 1 {
        assert(others =~= before);
        assert forall|i: int| 0 <= i < before.len() implies vstd::utf8::valid_utf8(
            #[trigger] before[i],
        ) by {
            assert(before[i] == found[i]);
        }
        lemma_paths_all_valid(before);
    } else {
        assert(before[k] == found[k]);
        assert forall|i: int| 0 <= i < before.len() && i != k implies vstd::utf8::valid_utf8(
            #[trigger] before[i],
        ) by {
            assert(before[i] == found[i]);
        }
        lemma_skips_exactly_invalid(before, k);
        assert(vstd::utf8::valid_utf8(found[found.len() - 1]));
        assert(others.drop_last() =~= before.remove(k));
        assert(others.last() == found.last());
        assert(paths(found) =~= decoded);
    }
}

/// The paths in a byte stream, in order: one for each record that is not
/// empty and is valid UTF-8.
pub fn stream_paths(input: &Vec<u8>) -> (found: Vec<String>)
    ensures
        texts_model(found@) == paths(records(input@)),
{
    let mut all = split_records(input);
    let ghost model = buffers_model(all@);
    let mut found: Vec<String> = Vec::new();
    let total: usize = all.len();
    let mut i: usize = 0;
    assert(texts_model(found@) =~= paths(model.take(0)));
    while i < total
        invariant
            i <= total,
            total == all@.len(),
            model.len() == total,
            forall|j: int| i <= j < total ==> (#[trigger] all@[j])@ == model[j],
            texts_model(found@) == paths(model.take(i as int)),
        decreases total - i,
    {
        let mut record: Vec<u8> = Vec::new();
        std::mem::swap(&mut record, &mut all[i]);
        proof {
            assert(record@ == model[i as int]);
            assert(model.take(i as int + 1).drop_last() =~= model.take(i as int));
            assert(model.take(i as int + 1).last() == model[i as int]);
        }
        match record_path(record) {
            Some(path) => {
                proof {
                    assert(texts_model(found@.push(path)) =~= texts_model(found@).push(path@));
                }
                found.push(path);
            },
            None => {},
        }
        i = i + 1;
    }
    assert(model.take(total as int) =~= model);
    found
}

} // verus!
