//! Chunk planning: splitting a file of a known size into fixed-size chunks.
//!
//! A plan is an ordered sequence of descriptors with consecutive indices
//! starting at zero.  Every chunk has length `chunk_size` except the last,
//! which holds the remainder; when the file size is an exact multiple of the
//! chunk size the last chunk is a full one.  A zero-byte file is planned as a
//! single zero-length chunk, so that even an empty upload carries exactly one
//! digest through the protocol.

use vstd::prelude::*;
use vstd::arithmetic::div_mod::{lemma_fundamental_div_mod, lemma_fundamental_div_mod_converse_div};

verus! {

/// One contiguous byte range of the source file: the unit of transfer.
#[derive(Clone, Copy, Debug, PartialEq, Eq, Structural)]
pub struct ChunkDescriptor {
    /// Zero-based position of the chunk in the plan.
    pub index: u32,
    /// Byte offset of the chunk within the file.
    pub offset: u64,
    /// Number of bytes in the chunk.
    pub length: u32,
}

/// Number of chunks a file of `file_size` bytes is split into.
/// A zero-byte file still occupies one (zero-length) chunk.
pub open spec fn chunk_count(file_size: u64, chunk_size: u64) -> nat
    recommends
        1 <= chunk_size,
{
    if file_size == 0 {
        1nat
    } else {
        (file_size - 1) as nat / chunk_size as nat + 1
    }
}

/// Length of chunk `i` of the plan: `chunk_size` everywhere but the last,
/// which takes what is left of the file.
pub open spec fn chunk_length(file_size: u64, chunk_size: u64, i: int) -> int
    recommends
        1 <= chunk_size,
        0 <= i < chunk_count(file_size, chunk_size),
{
    if i == chunk_count(file_size, chunk_size) - 1 {
        file_size - i * chunk_size
    } else {
        chunk_size as int
    }
}

/// The descriptor of chunk `i` of the plan.
pub open spec fn plan_chunk(file_size: u64, chunk_size: u64, i: int) -> ChunkDescriptor
    recommends
        1 <= chunk_size,
        0 <= i < chunk_count(file_size, chunk_size),
{
    ChunkDescriptor {
        index: i as u32,
        offset: (i * chunk_size) as u64,
        length: chunk_length(file_size, chunk_size, i) as u32,
    }
}

/// The full plan for a file of `file_size` bytes, chunked at `chunk_size`.
pub open spec fn plan_seq(file_size: u64, chunk_size: u64) -> Seq<ChunkDescriptor>
    recommends
        1 <= chunk_size,
{
    Seq::new(chunk_count(file_size, chunk_size), |i: int| plan_chunk(file_size, chunk_size, i))
}

/// Sum of the chunk lengths of a plan.
pub open spec fn lengths_sum(s: Seq<ChunkDescriptor>) -> int
    decreases s.len(),
{
    if s.len() == 0 {
        0
    } else {
        lengths_sum(s.drop_last()) + s.last().length
    }
}

/// The chunk count is the least number of chunks of `chunk_size` bytes that
/// cover the file: all chunks before the last are full, and the last one is
/// neither empty (for a non-empty file) nor over-long.
proof fn lemma_count_bounds(file_size: u64, chunk_size: u64)
    requires
        1 <= chunk_size,
        0 < file_size,
    ensures
        1 <= chunk_count(file_size, chunk_size),
        (chunk_count(file_size, chunk_size) - 1) * chunk_size < file_size,
        file_size <= chunk_count(file_size, chunk_size) * chunk_size,
{
    let c = chunk_size as int;
    let q = (file_size - 1) as int / c;
    lemma_fundamental_div_mod((file_size - 1) as int, c);
    let r = (file_size - 1) as int % c;
    assert(file_size - 1 == c * q + r);
    assert(q * c == c * q) by (nonlinear_arith);
    assert((q + 1) * c == q * c + c) by (nonlinear_arith);
}

/// The offset and length of chunk `i` lie inside the file, the length never
/// exceeds the chunk size, and for a non-empty file no chunk is empty.
proof fn lemma_chunk_bounds_at(file_size: u64, chunk_size: u64, i: int)
    requires
        1 <= chunk_size,
        0 <= i < chunk_count(file_size, chunk_size),
    ensures
        0 <= i * chunk_size <= file_size,
        0 <= chunk_length(file_size, chunk_size, i) <= chunk_size,
        i * chunk_size + chunk_length(file_size, chunk_size, i) <= file_size,
        file_size > 0 ==> 0 < chunk_length(file_size, chunk_size, i),
{
    let n = chunk_count(file_size, chunk_size) as int;
    if file_size == 0 {
        assert(i == 0);
        assert(0 * chunk_size == 0) by (nonlinear_arith);
    } else {
        lemma_count_bounds(file_size, chunk_size);
        assert(0 <= i * chunk_size <= (n - 1) * chunk_size) by (nonlinear_arith)
            requires
                0 <= i <= n - 1,
                chunk_size >= 1,
        ;
        if i == n - 1 {
            assert(n * chunk_size == (n - 1) * chunk_size + chunk_size) by (nonlinear_arith);
        } else {
            assert(i * chunk_size + chunk_size <= (n - 1) * chunk_size) by (nonlinear_arith)
                requires
                    0 <= i <= n - 2,
                    chunk_size >= 1,
            ;
        }
    }
}

/// Compute the chunk plan for a file of `file_size` bytes.
///
/// The bound on `chunk_count` keeps every chunk index inside `u32`, as the
/// descriptor records it; with the chunk sizes this protocol uses it is far
/// from reachable.
pub fn plan(file_size: u64, chunk_size: u64) -> (r: Vec<ChunkDescriptor>)
    requires
        1 <= chunk_size <= u32::MAX,
        chunk_count(file_size, chunk_size) <= u32::MAX,
    ensures
        r@ == plan_seq(file_size, chunk_size),
{
    let count: u64 = if file_size == 0 {
        1
    } else {
        (file_size - 1) / chunk_size + 1
    };
    assert(count == chunk_count(file_size, chunk_size));
    let mut r: Vec<ChunkDescriptor> = Vec::new();
    let mut i: u64 = 0;
    while i < count
        invariant
            0 <= i <= count,
            count == chunk_count(file_size, chunk_size),
            1 <= chunk_size <= u32::MAX,
            count <= u32::MAX,
            r@ == plan_seq(file_size, chunk_size).take(i as int),
        decreases count - i,
    {
        proof {
            lemma_chunk_bounds_at(file_size, chunk_size, i as int);
        }
        let offset: u64 = i * chunk_size;
        let length: u64 = if i == count - 1 {
            file_size - offset
        } else {
            chunk_size
        };
        assert(length == chunk_length(file_size, chunk_size, i as int));
        let d = ChunkDescriptor { index: i as u32, offset, length: length as u32 };
        assert(d == plan_chunk(file_size, chunk_size, i as int));
        r.push(d);
        assert(r@ =~= plan_seq(file_size, chunk_size).take(i + 1));
        i = i + 1;
    }
    assert(r@ =~= plan_seq(file_size, chunk_size));
    r
}

/// The plan covers the file exactly: the lengths sum to the file size, the
/// indices are consecutive from zero, every offset is its index times the
/// chunk size, no chunk exceeds the chunk size, and for a non-empty file no
/// chunk is empty.
pub proof fn lemma_plan_covers_file(file_size: u64, chunk_size: u64)
    requires
        1 <= chunk_size <= u32::MAX,
        chunk_count(file_size, chunk_size) <= u32::MAX,
    ensures
        lengths_sum(plan_seq(file_size, chunk_size)) == file_size,
        plan_seq(file_size, chunk_size).len() == chunk_count(file_size, chunk_size),
        forall|i: int|
            0 <= i < plan_seq(file_size, chunk_size).len() ==> (#[trigger] plan_seq(
                file_size,
                chunk_size,
            )[i]).index == i,
        forall|i: int|
            0 <= i < plan_seq(file_size, chunk_size).len() ==> (#[trigger] plan_seq(
                file_size,
                chunk_size,
            )[i]).offset == i * chunk_size,
        forall|i: int|
            0 <= i < plan_seq(file_size, chunk_size).len() ==> (#[trigger] plan_seq(
                file_size,
                chunk_size,
            )[i]).length <= chunk_size,
        file_size > 0 ==> forall|i: int|
            0 <= i < plan_seq(file_size, chunk_size).len() ==> (#[trigger] plan_seq(
                file_size,
                chunk_size,
            )[i]).length > 0,
{
    let n = chunk_count(file_size, chunk_size) as int;
    assert forall|i: int| 0 <= i < plan_seq(file_size, chunk_size).len() implies {
        &&& (#[trigger] plan_seq(file_size, chunk_size)[i]).index == i
        &&& plan_seq(file_size, chunk_size)[i].offset == i * chunk_size
        &&& plan_seq(file_size, chunk_size)[i].length <= chunk_size
        &&& (file_size > 0 ==> plan_seq(file_size, chunk_size)[i].length > 0)
    } by {
        lemma_chunk_bounds_at(file_size, chunk_size, i);
    }
    lemma_sum_prefix(file_size, chunk_size, n);
    assert(plan_seq(file_size, chunk_size).take(n) =~= plan_seq(file_size, chunk_size));
}

/// The first `k` chunks of the plan cover exactly the first
/// `k * chunk_size` bytes (all of the file, once `k` is the whole plan).
proof fn lemma_sum_prefix(file_size: u64, chunk_size: u64, k: int)
    requires
        1 <= chunk_size <= u32::MAX,
        chunk_count(file_size, chunk_size) <= u32::MAX,
        0 <= k <= chunk_count(file_size, chunk_size),
    ensures
        lengths_sum(plan_seq(file_size, chunk_size).take(k)) == if k == chunk_count(
            file_size,
            chunk_size,
        ) {
            file_size as int
        } else {
            k * chunk_size
        },
    decreases k,
{
    let n = chunk_count(file_size, chunk_size) as int;
    let s = plan_seq(file_size, chunk_size);
    if k == 0 {
        assert(s.take(0).len() == 0);
        assert(0 * chunk_size == 0) by (nonlinear_arith);
    } else {
        lemma_sum_prefix(file_size, chunk_size, k - 1);
        assert(s.take(k).drop_last() =~= s.take(k - 1));
        assert(s.take(k).last() == s[k - 1]);
        lemma_chunk_bounds_at(file_size, chunk_size, k - 1);
        if k == n {
            if file_size == 0 {
                assert(lengths_sum(s.take(k)) == 0);
            } else {
                lemma_count_bounds(file_size, chunk_size);
                assert((k - 1) * chunk_size + (file_size - (k - 1) * chunk_size) == file_size);
            }
        } else {
            assert((k - 1) * chunk_size + chunk_size == k * chunk_size) by (nonlinear_arith);
        }
    }
}

/// When the file size is an exact positive multiple of the chunk size, the
/// last chunk of the plan is a full chunk, not an empty one.
pub proof fn lemma_exact_multiple_full_last_chunk(file_size: u64, chunk_size: u64)
    requires
        1 <= chunk_size <= u32::MAX,
        0 < file_size,
        file_size % chunk_size == 0,
    ensures
        plan_seq(file_size, chunk_size).last().length == chunk_size,
{
    let c = chunk_size as int;
    let m = file_size as int / c;
    lemma_fundamental_div_mod(file_size as int, c);
    assert(file_size == c * m);
    assert(m >= 1) by (nonlinear_arith)
        requires
            c >= 1,
            file_size >= 1,
            file_size == c * m,
    ;
    assert(file_size - 1 == c * (m - 1) + (c - 1)) by (nonlinear_arith)
        requires
            file_size == c * m,
    ;
    lemma_fundamental_div_mod_converse_div((file_size - 1) as int, c, m - 1, c - 1);
    assert(chunk_count(file_size, chunk_size) == m);
    let n = m;
    assert(plan_seq(file_size, chunk_size).last() == plan_chunk(file_size, chunk_size, n - 1));
    assert(file_size - (n - 1) * c == c) by (nonlinear_arith)
        requires
            file_size == c * n,
    ;
    assert(chunk_length(file_size, chunk_size, n - 1) == c);
}

/// A zero-byte file is planned as one zero-length chunk at offset zero: the
/// degenerate plan this library chooses for the empty file.
pub proof fn lemma_empty_file_plan(chunk_size: u64)
    requires
        1 <= chunk_size,
    ensures
        plan_seq(0, chunk_size) =~= seq![ChunkDescriptor { index: 0, offset: 0, length: 0 }],
{
    assert(chunk_count(0, chunk_size) == 1);
    assert(0 * chunk_size == 0) by (nonlinear_arith);
    assert(plan_chunk(0, chunk_size, 0) == ChunkDescriptor { index: 0, offset: 0, length: 0 });
}

} // verus!
