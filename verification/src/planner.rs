//! Chunked upload planner: validates the caller's inputs and fixes,
//! once per upload, how the flat vector buffer is cut into streamed
//! chunks.
//!
//! Values travel here as the IEEE-754 bit patterns (`u32`) of the
//! caller's `f32` buffer; the chunking never looks inside a value, so
//! the plan is a pure function on integers.

use vstd::prelude::*;
use vstd::arithmetic::div_mod::{
    lemma_basic_div, lemma_div_nonincreasing, lemma_div_plus_one, lemma_div_pos_is_pos,
    lemma_fundamental_div_mod, lemma_mod_division_less_than_divisor,
};
use vstd::arithmetic::mul::{
    lemma_mul_inequality, lemma_mul_is_commutative, lemma_mul_nonnegative,
};
use vstd::string::StringExecFns;
use crate::decimal::dec_digits;
use crate::error::CasperError;

verus! {

/// First message of every upload stream.
#[derive(Debug, Clone, PartialEq)]
pub struct UploadHeader {
    pub name: String,
    pub dimension: u32,
    pub total_chunks: u32,
    pub max_vectors_per_chunk: u32,
}

/// One streamed slice of the flat buffer. `values` holds `f32` bit
/// patterns.
#[derive(Debug, Clone, PartialEq)]
pub struct UploadChunk {
    pub chunk_index: u32,
    pub values: Vec<u32>,
}

/// A message of the upload stream: exactly one `Header` per stream,
/// always first, then `Data` messages in increasing `chunk_index`
/// order.
#[derive(Debug, Clone, PartialEq)]
pub enum StreamMessage {
    Header(UploadHeader),
    Data(UploadChunk),
}

/// The chunk size actually used: the requested size, raised to the
/// dimension when it is smaller (a chunk must hold one full vector).
pub open spec fn spec_effective_chunk_floats(dimension: usize, chunk_floats: usize) -> usize {
    if chunk_floats < dimension {
        dimension
    } else {
        chunk_floats
    }
}

/// Ceiling division: the number of chunks of size `c` covering `len`
/// values.
pub open spec fn spec_total_chunks(len: nat, c: nat) -> nat
    recommends
        c > 0,
{
    (len + c - 1) as nat / c
}

/// Where chunk `i` ends: a full stride, or the end of the buffer.
pub open spec fn spec_chunk_end(len: int, c: int, i: int) -> int {
    if (i + 1) * c <= len {
        (i + 1) * c
    } else {
        len
    }
}

/// The values of chunk `i`: the fixed-stride slice
/// `buf[i*c .. min((i+1)*c, len)]`.
pub open spec fn spec_chunk_values(buf: Seq<u32>, c: int, i: int) -> Seq<u32> {
    buf.subrange(i * c, spec_chunk_end(buf.len() as int, c, i))
}

/// The advisory per-chunk vector capacity reported in the header:
/// `max(1, c / dimension)`.
pub open spec fn spec_max_vectors_per_chunk(dimension: int, c: int) -> int
    recommends
        dimension > 0,
{
    if c / dimension < 1 {
        1
    } else {
        c / dimension
    }
}

/// Failure text for a zero dimension.
pub open spec fn zero_dimension_message() -> Seq<char> {
    "dimension must be greater than 0"@
}

/// Failure text for a buffer that does not hold whole vectors; carries
/// both the buffer length and the dimension.
pub open spec fn misaligned_message(len: nat, dimension: nat) -> Seq<char> {
    "vector buffer length "@ + dec_digits(len) + " is not divisible by dimension "@ + dec_digits(
        dimension,
    )
}

/// Facts about the ceiling division `(len + c - 1) / c` that the
/// planner's arithmetic rests on.
proof fn lemma_ceil_div_facts(len: int, c: int)
    requires
        0 < c,
        0 <= len,
    ensures
        len == 0 ==> (len + c - 1) / c == 0,
        len > 0 ==> (len + c - 1) / c == (len - 1) / c + 1,
        ((len + c - 1) / c) * c >= len,
        (len + c - 1) / c <= len,
{
    let q = (len + c - 1) / c;
    lemma_fundamental_div_mod(len + c - 1, c);
    lemma_mod_division_less_than_divisor(len + c - 1, c);
    assert(c * q >= len);
    lemma_mul_is_commutative(c, q);
    if len == 0 {
        lemma_basic_div(c - 1, c);
    } else {
        lemma_div_plus_one(len - 1, c);
        lemma_div_nonincreasing(len - 1, c);
    }
}

/// Every chunk index below the total starts strictly inside the
/// buffer: `i < ceil(len / c)` implies `i * c < len`.
proof fn lemma_chunk_start_in_bounds(len: int, c: int, i: int)
    requires
        0 < c,
        0 <= len,
        0 <= i < (len + c - 1) / c,
    ensures
        i * c < len,
{
    lemma_ceil_div_facts(len, c);
    assert(len > 0);
    let p = (len - 1) / c;
    lemma_fundamental_div_mod(len - 1, c);
    lemma_mod_division_less_than_divisor(len - 1, c);
    lemma_mul_inequality(i, p, c);
    lemma_mul_is_commutative(p, c);
}

/// The fixed plan of one upload: the validated inputs plus the chunk
/// geometry computed from them.
#[derive(Debug, Clone, PartialEq)]
pub struct UploadPlan {
    pub name: String,
    pub dimension: u32,
    pub vectors: Vec<u32>,
    pub chunk_floats: usize,
    pub total_chunks: u32,
}

impl UploadPlan {
    /// Internal consistency of a plan, as `plan_upload` establishes it.
    pub open spec fn wf(self) -> bool {
        &&& self.dimension > 0
        &&& self.dimension <= self.chunk_floats <= u32::MAX
        &&& self.vectors@.len() % (self.dimension as nat) == 0
        &&& self.vectors@.len() <= u32::MAX
        &&& self.total_chunks == spec_total_chunks(self.vectors@.len(), self.chunk_floats as nat)
    }

    /// The header sent once, first, on the stream.
    pub fn header(&self) -> (h: UploadHeader)
        requires
            self.wf(),
        ensures
            h.name@ == self.name@,
            h.dimension == self.dimension,
            h.total_chunks == self.total_chunks,
            h.max_vectors_per_chunk == spec_max_vectors_per_chunk(
                self.dimension as int,
                self.chunk_floats as int,
            ),
    {
        let mv = self.chunk_floats / (self.dimension as usize);
        let max_vectors_per_chunk: u32 = if mv < 1 {
            1
        } else {
            proof {
                lemma_div_nonincreasing(self.chunk_floats as int, self.dimension as int);
            }
            mv as u32
        };
        UploadHeader {
            name: self.name.clone(),
            dimension: self.dimension,
            total_chunks: self.total_chunks,
            max_vectors_per_chunk,
        }
    }

    /// Chunk `i` of the plan: index `i`, values
    /// `vectors[i*c .. min((i+1)*c, len)]`.
    pub fn chunk(&self, i: u32) -> (r: UploadChunk)
        requires
            self.wf(),
            i < self.total_chunks,
        ensures
            r.chunk_index == i,
            r.values@ == spec_chunk_values(self.vectors@, self.chunk_floats as int, i as int),
    {
        let len = self.vectors.len();
        proof {
            let c = self.chunk_floats as int;
            lemma_chunk_start_in_bounds(len as int, c, i as int);
            assert((i as int + 1) * c == (i as int) * c + c) by (nonlinear_arith);
        }
        let start = (i as usize) * self.chunk_floats;
        let end = if self.chunk_floats < len - start {
            start + self.chunk_floats
        } else {
            len
        };
        let mut values: Vec<u32> = Vec::new();
        let mut j = start;
        while j < end
            invariant
                start <= j <= end <= self.vectors@.len(),
                values@ == self.vectors@.subrange(start as int, j as int),
            decreases end - j,
        {
            values.push(self.vectors[j]);
            proof {
                assert(self.vectors@.subrange(start as int, j + 1 as int) =~= self.vectors@
                    .subrange(start as int, j as int).push(self.vectors@[j as int]));
            }
            j = j + 1;
        }
        proof {
            assert(values@ =~= spec_chunk_values(
                self.vectors@,
                self.chunk_floats as int,
                i as int,
            ));
        }
        UploadChunk { chunk_index: i, values }
    }
}

/// Validate an upload's inputs and fix its chunk geometry.
///
/// `dimension == 0` is rejected; a buffer whose length is not a
/// multiple of `dimension` is rejected with both numbers in the error;
/// `chunk_floats` below `dimension` is silently raised to `dimension`,
/// never rejected. The bounds in `requires` are forced by the `u32`
/// header fields of the wire format.
pub fn plan_upload(matrix_name: &str, dimension: usize, vectors: Vec<u32>, chunk_floats: usize)
    -> (r: Result<UploadPlan, CasperError>)
    requires
        dimension <= u32::MAX,
        chunk_floats <= u32::MAX,
        vectors@.len() <= u32::MAX,
    ensures
        r is Ok <==> (dimension > 0 && vectors@.len() % (dimension as nat) == 0),
        dimension == 0 ==> (r matches Err(e) && e matches CasperError::InvalidUploadConfig(m)
            && m@ == zero_dimension_message()),
        dimension > 0 && vectors@.len() % (dimension as nat) != 0 ==> (r matches Err(e)
            && e matches CasperError::InvalidUploadConfig(m) && m@ == misaligned_message(
            vectors@.len(),
            dimension as nat,
        )),
        r matches Ok(p) ==> {
            &&& p.wf()
            &&& p.name@ == matrix_name@
            &&& p.dimension == dimension as u32
            &&& p.vectors@ == vectors@
            &&& p.chunk_floats == spec_effective_chunk_floats(dimension, chunk_floats)
        },
{
    if dimension == 0 {
        let m = String::from_str("dimension must be greater than 0");
        proof {
            reveal_strlit("dimension must be greater than 0");
            assert(m@ =~= zero_dimension_message());
        }
        return Err(CasperError::InvalidUploadConfig(m));
    }
    let len = vectors.len();
    if len % dimension != 0 {
        let mut m = String::from_str("vector buffer length ");
        let len_str = crate::decimal::usize_to_string(len);
        m.append(len_str.as_str());
        m.append(" is not divisible by dimension ");
        let dim_str = crate::decimal::usize_to_string(dimension);
        m.append(dim_str.as_str());
        proof {
            reveal_strlit("vector buffer length ");
            reveal_strlit(" is not divisible by dimension ");
            assert(m@ =~= misaligned_message(vectors@.len(), dimension as nat));
        }
        return Err(CasperError::InvalidUploadConfig(m));
    }
    let eff = if chunk_floats < dimension {
        dimension
    } else {
        chunk_floats
    };
    proof {
        lemma_ceil_div_facts(len as int, eff as int);
    }
    let total_chunks: u32 = if len == 0 {
        0
    } else {
        (((len - 1) / eff) + 1) as u32
    };
    Ok(UploadPlan {
        name: String::from_str(matrix_name),
        dimension: dimension as u32,
        vectors,
        chunk_floats: eff,
        total_chunks,
    })
}

/// The concatenation of the first `k` chunks, in index order.
pub open spec fn chunks_concat(buf: Seq<u32>, c: int, k: int) -> Seq<u32>
    decreases k,
{
    if k <= 0 {
        Seq::empty()
    } else {
        chunks_concat(buf, c, k - 1) + spec_chunk_values(buf, c, k - 1)
    }
}

/// The first `k` chunks concatenated are exactly the buffer's first
/// `min(k * c, len)` values.
proof fn lemma_chunks_concat_prefix(buf: Seq<u32>, c: int, k: int)
    requires
        0 < c,
        0 <= k,
        (k - 1) * c <= buf.len(),
    ensures
        chunks_concat(buf, c, k) == buf.subrange(
            0,
            if k * c <= buf.len() {
                k * c
            } else {
                buf.len() as int
            },
        ),
    decreases k,
{
    let len = buf.len() as int;
    let end: int = if k * c <= len {
        k * c
    } else {
        len
    };
    if k == 0 {
        assert(k * c == 0) by (nonlinear_arith)
            requires
                k == 0,
        ;
        assert(end == 0);
        assert(chunks_concat(buf, c, 0) =~= buf.subrange(0, 0));
    } else {
        lemma_mul_nonnegative(k - 1, c);
        lemma_mul_inequality(k - 2, k - 1, c);
        lemma_mul_inequality(k - 1, k, c);
        lemma_chunks_concat_prefix(buf, c, k - 1);
        let prev_end: int = (k - 1) * c;
        let this_end: int = if k * c <= len {
            k * c
        } else {
            len
        };
        assert(0 <= prev_end <= this_end <= len);
        assert(spec_chunk_end(len, c, k - 1) == this_end);
        assert(spec_chunk_values(buf, c, k - 1) == buf.subrange(prev_end, this_end));
        assert(chunks_concat(buf, c, k - 1) == buf.subrange(0, prev_end));
        assert(chunks_concat(buf, c, k) == buf.subrange(0, prev_end) + buf.subrange(
            prev_end,
            this_end,
        ));
        assert(buf.subrange(0, prev_end) + buf.subrange(prev_end, this_end) =~= buf.subrange(
            0,
            this_end,
        ));
        assert(this_end == end);
        assert(chunks_concat(buf, c, k) == buf.subrange(0, end));
    }
}

/// Planner chunk coverage: for any chunk size `c > 0`, the plan's
/// chunks, concatenated in index order, reconstruct the buffer
/// exactly, and the chunk count is the ceiling of `len / c`.
pub proof fn lemma_chunk_coverage(buf: Seq<u32>, c: int)
    requires
        0 < c,
    ensures
        chunks_concat(buf, c, spec_total_chunks(buf.len(), c as nat) as int) == buf,
        c * spec_total_chunks(buf.len(), c as nat) >= buf.len(),
{
    let len = buf.len() as int;
    let total = spec_total_chunks(buf.len(), c as nat) as int;
    lemma_ceil_div_facts(len, c);
    lemma_mul_is_commutative(c, total);
    if total > 0 {
        lemma_chunk_start_in_bounds(len, c, total - 1);
    } else {
        assert(len == 0);
        lemma_div_pos_is_pos(len + c - 1, c);
        assert((total - 1) * c <= 0) by (nonlinear_arith)
            requires
                total == 0 && c > 0,
        ;
    }
    lemma_chunks_concat_prefix(buf, c, total);
    assert(total * c >= len);
    assert(buf.subrange(0, len) =~= buf);
}

/// Chunk coverage, stated of a well-formed plan: its chunks,
/// concatenated in index order, are exactly its buffer.
pub proof fn lemma_plan_chunks_cover(plan: UploadPlan)
    requires
        plan.wf(),
    ensures
        chunks_concat(plan.vectors@, plan.chunk_floats as int, plan.total_chunks as int)
            == plan.vectors@,
{
    lemma_chunk_coverage(plan.vectors@, plan.chunk_floats as int);
}

} // verus!
