//! Binary frame decoder for similarity-search responses.
//!
//! Wire format, little-endian, no padding: a `u32` record count,
//! followed by `count` records of `{ id: u32, score: f32 }`. Scores
//! travel here as their raw IEEE-754 bit patterns (`u32`), so the
//! decoder is a pure function on integers; callers that want the
//! floating-point value reinterpret the bits at the boundary.

use vstd::prelude::*;
use vstd::bytes::{
    lemma_auto_spec_u32_to_from_le_bytes, spec_u32_from_le_bytes, spec_u32_to_le_bytes,
    u32_from_le_bytes, u32_to_le_bytes,
};
use vstd::slice::slice_subrange;
use vstd::string::StringExecFns;
use crate::decimal::dec_digits;
use crate::error::CasperError;

verus! {

/// Width of the leading record-count field, in bytes.
pub const HEADER_BYTES: usize = 4;

/// Width of one `(id, score)` record, in bytes.
pub const RECORD_BYTES: usize = 8;

/// One decoded search hit. `score_bits` is the IEEE-754 bit pattern of
/// the server-reported `f32` score, kept as an integer.
#[derive(Debug, Clone, Copy, PartialEq, Eq, Structural)]
pub struct SearchResult {
    pub id: u32,
    pub score_bits: u32,
}

/// The record count claimed by the buffer's leading field.
pub open spec fn header_count(buf: Seq<u8>) -> u32
    recommends
        buf.len() >= HEADER_BYTES,
{
    spec_u32_from_le_bytes(buf.subrange(0, HEADER_BYTES as int))
}

/// The total length the buffer must have to hold the claimed records.
pub open spec fn expected_len(buf: Seq<u8>) -> nat {
    (HEADER_BYTES + RECORD_BYTES * header_count(buf)) as nat
}

/// Whether the buffer decodes successfully.
pub open spec fn decode_ok(buf: Seq<u8>) -> bool {
    buf.len() >= HEADER_BYTES && buf.len() >= expected_len(buf)
}

/// The `i`-th record of a well-formed buffer.
pub open spec fn record_at(buf: Seq<u8>, i: int) -> SearchResult {
    SearchResult {
        id: spec_u32_from_le_bytes(buf.subrange(4 + 8 * i, 8 + 8 * i)),
        score_bits: spec_u32_from_le_bytes(buf.subrange(8 + 8 * i, 12 + 8 * i)),
    }
}

/// All records of a well-formed buffer, in wire order.
pub open spec fn decoded_records(buf: Seq<u8>) -> Seq<SearchResult> {
    Seq::new(header_count(buf) as nat, |i: int| record_at(buf, i))
}

/// Failure text for a buffer shorter than the count field.
pub open spec fn too_short_message() -> Seq<char> {
    "binary search response too short (missing count)"@
}

/// Failure text for a buffer shorter than its claimed record count
/// requires.
pub open spec fn truncated_message(expected: nat, actual: nat) -> Seq<char> {
    "binary search response truncated: expected at least "@ + dec_digits(expected)
        + " bytes, got "@ + dec_digits(actual)
}

/// Decode a binary search response.
///
/// Succeeds exactly on buffers holding a count field and at least that
/// many full records; extra trailing bytes are tolerated. Never reads
/// out of bounds, whatever count the buffer claims.
pub fn decode_search_response(buf: &[u8]) -> (r: Result<Vec<SearchResult>, CasperError>)
    ensures
        r is Ok <==> decode_ok(buf@),
        r matches Ok(v) ==> v@ == decoded_records(buf@),
        buf@.len() < HEADER_BYTES ==> (r matches Err(e) && e matches CasperError::InvalidResponse(m)
            && m@ == too_short_message()),
        buf@.len() >= HEADER_BYTES && !decode_ok(buf@) ==> (r matches Err(e)
            && e matches CasperError::InvalidResponse(m) && m@ == truncated_message(
            expected_len(buf@),
            buf@.len(),
        )),
{
    let n = buf.len();
    if n < HEADER_BYTES {
        let m = String::from_str("binary search response too short (missing count)");
        proof {
            reveal_strlit("binary search response too short (missing count)");
            assert(m@ =~= too_short_message());
        }
        return Err(CasperError::InvalidResponse(m));
    }
    let count = u32_from_le_bytes(slice_subrange(buf, 0, HEADER_BYTES));
    let expected: u64 = (HEADER_BYTES as u64) + (RECORD_BYTES as u64) * (count as u64);
    if (n as u64) < expected {
        let mut m = String::from_str("binary search response truncated: expected at least ");
        let e_str = crate::decimal::u64_to_string(expected);
        m.append(e_str.as_str());
        m.append(" bytes, got ");
        let n_str = crate::decimal::usize_to_string(n);
        m.append(n_str.as_str());
        proof {
            reveal_strlit("binary search response truncated: expected at least ");
            reveal_strlit(" bytes, got ");
            assert(m@ =~= truncated_message(expected_len(buf@), buf@.len()));
        }
        return Err(CasperError::InvalidResponse(m));
    }
    let count_us = count as usize;
    let mut out: Vec<SearchResult> = Vec::with_capacity(count_us);
    let mut i: usize = 0;
    while i < count_us
        invariant
            n == buf@.len(),
            count_us == header_count(buf@),
            buf@.len() >= 4 + 8 * count_us,
            i <= count_us,
            out@.len() == i,
            forall|j: int| 0 <= j < i ==> out@[j] == record_at(buf@, j),
        decreases count_us - i,
    {
        let off = HEADER_BYTES + RECORD_BYTES * i;
        let id = u32_from_le_bytes(slice_subrange(buf, off, off + 4));
        let score_bits = u32_from_le_bytes(slice_subrange(buf, off + 4, off + 8));
        out.push(SearchResult { id, score_bits });
        i = i + 1;
    }
    proof {
        assert(out@ =~= decoded_records(buf@));
    }
    Ok(out)
}

/// The wire bytes of one record: id, then score bits, each
/// little-endian.
pub open spec fn record_bytes(r: SearchResult) -> Seq<u8> {
    spec_u32_to_le_bytes(r.id) + spec_u32_to_le_bytes(r.score_bits)
}

/// The wire bytes of a record sequence, in order.
pub open spec fn records_bytes(rs: Seq<SearchResult>) -> Seq<u8>
    decreases rs.len(),
{
    if rs.len() == 0 {
        Seq::empty()
    } else {
        records_bytes(rs.drop_last()) + record_bytes(rs.last())
    }
}

/// The full wire encoding: count field, then the records.
pub open spec fn encoded_response(rs: Seq<SearchResult>) -> Seq<u8>
    recommends
        rs.len() <= u32::MAX,
{
    spec_u32_to_le_bytes(rs.len() as u32) + records_bytes(rs)
}

/// Encode records into the binary search-response wire format.
pub fn encode_search_response(records: &Vec<SearchResult>) -> (r: Vec<u8>)
    requires
        records@.len() <= u32::MAX,
    ensures
        r@ == encoded_response(records@),
{
    let count = records.len() as u32;
    let mut out: Vec<u8> = u32_to_le_bytes(count);
    let mut i: usize = 0;
    proof {
        assert(records@.subrange(0, 0) =~= Seq::<SearchResult>::empty());
    }
    while i < records.len()
        invariant
            count == records@.len(),
            i <= records@.len(),
            out@ == spec_u32_to_le_bytes(count) + records_bytes(records@.subrange(0, i as int)),
        decreases records@.len() - i,
    {
        let rec = records[i];
        let mut id_bytes = u32_to_le_bytes(rec.id);
        out.append(&mut id_bytes);
        let mut score_bytes = u32_to_le_bytes(rec.score_bits);
        out.append(&mut score_bytes);
        proof {
            let pre = records@.subrange(0, i as int);
            let post = records@.subrange(0, i + 1 as int);
            assert(post.drop_last() =~= pre);
            assert(post.last() == records@[i as int]);
        }
        i = i + 1;
    }
    proof {
        assert(records@.subrange(0, records@.len() as int) =~= records@);
    }
    out
}

/// The encoding of `rs` is `8 * rs.len()` bytes of records.
pub proof fn lemma_records_bytes_len(rs: Seq<SearchResult>)
    ensures
        records_bytes(rs).len() == 8 * rs.len(),
    decreases rs.len(),
{
    lemma_auto_spec_u32_to_from_le_bytes();
    if rs.len() != 0 {
        lemma_records_bytes_len(rs.drop_last());
    }
}

/// Within the encoded records, record `i` sits at byte offset `8 * i`.
pub proof fn lemma_records_bytes_at(rs: Seq<SearchResult>, i: int)
    requires
        0 <= i < rs.len(),
    ensures
        records_bytes(rs).subrange(8 * i, 8 * i + 8) == record_bytes(rs[i]),
    decreases rs.len(),
{
    lemma_auto_spec_u32_to_from_le_bytes();
    lemma_records_bytes_len(rs.drop_last());
    if i == rs.len() - 1 {
        assert(records_bytes(rs).subrange(8 * i, 8 * i + 8) =~= record_bytes(rs[i]));
    } else {
        lemma_records_bytes_at(rs.drop_last(), i);
        assert(records_bytes(rs).subrange(8 * i, 8 * i + 8) =~= records_bytes(
            rs.drop_last(),
        ).subrange(8 * i, 8 * i + 8));
        assert(rs.drop_last()[i] == rs[i]);
    }
}

/// Decoder round-trip: decoding an encoded record sequence succeeds
/// and reproduces exactly the original records, in order.
pub proof fn lemma_decode_encode_round_trip(rs: Seq<SearchResult>)
    requires
        rs.len() <= u32::MAX,
    ensures
        decode_ok(encoded_response(rs)),
        decoded_records(encoded_response(rs)) == rs,
{
    let buf = encoded_response(rs);
    lemma_auto_spec_u32_to_from_le_bytes();
    lemma_records_bytes_len(rs);
    assert(buf.subrange(0, 4) =~= spec_u32_to_le_bytes(rs.len() as u32));
    assert(header_count(buf) == rs.len() as u32);
    assert(decode_ok(buf));
    assert forall|i: int| 0 <= i < rs.len() implies decoded_records(buf)[i] == rs[i] by {
        lemma_records_bytes_at(rs, i);
        assert(buf.subrange(4 + 8 * i, 8 + 8 * i) =~= records_bytes(rs).subrange(8 * i, 8 * i + 8)
            .subrange(0, 4));
        assert(buf.subrange(8 + 8 * i, 12 + 8 * i) =~= records_bytes(rs).subrange(
            8 * i,
            8 * i + 8,
        ).subrange(4, 8));
        assert(record_bytes(rs[i]).subrange(0, 4) =~= spec_u32_to_le_bytes(rs[i].id));
        assert(record_bytes(rs[i]).subrange(4, 8) =~= spec_u32_to_le_bytes(rs[i].score_bits));
    }
    assert(decoded_records(buf) =~= rs);
}

} // verus!
