//! Partition of a buffer into consecutive fixed-size chunks.
//!
//! A buffer of `size` bytes is split into chunks of at most [`CHUNK_LEN`]
//! bytes each; every chunk but the last is full, and the last holds
//! `size % CHUNK_LEN` bytes when that is nonzero, else a full chunk.

use vstd::prelude::*;

verus! {

/// Length in bytes of one copy chunk: 1 MiB.
pub const CHUNK_LEN: usize = 1024 * 1024;

/// Number of chunks a buffer of `size` bytes is split into: `size / chunk`
/// rounded up.
pub open spec fn spec_chunk_count(size: nat, chunk: nat) -> nat
    recommends
        chunk > 0,
{
    ((size + chunk - 1) / chunk as int) as nat
}

/// Byte offset at which chunk `i` starts.
pub open spec fn spec_chunk_start(i: nat, chunk: nat) -> nat {
    i * chunk
}

/// Length in bytes of chunk `i`: a full chunk, or whatever remains of the
/// buffer past its start.
pub open spec fn spec_chunk_len(size: nat, i: nat, chunk: nat) -> nat
    recommends
        chunk > 0,
        i < spec_chunk_count(size, chunk),
{
    if size - spec_chunk_start(i, chunk) < chunk {
        (size - spec_chunk_start(i, chunk)) as nat
    } else {
        chunk
    }
}

/// Number of chunks a buffer of `size` bytes is split into.
pub fn chunk_count(size: usize) -> (n: usize)
    ensures
        n == spec_chunk_count(size as nat, CHUNK_LEN as nat),
{
    if size == 0 {
        0
    } else {
        proof {
            vstd::arithmetic::div_mod::lemma_div_plus_one(size - 1, CHUNK_LEN as int);
        }
        1 + (size - 1) / CHUNK_LEN
    }
}

/// Start offset and length of chunk `i` of a buffer of `size` bytes.
pub fn chunk_span(size: usize, i: usize) -> (r: (usize, usize))
    requires
        (i as nat) < spec_chunk_count(size as nat, CHUNK_LEN as nat),
    ensures
        r.0 == spec_chunk_start(i as nat, CHUNK_LEN as nat),
        r.1 == spec_chunk_len(size as nat, i as nat, CHUNK_LEN as nat),
        r.0 + r.1 <= size,
        r.1 > 0,
{
    proof {
        lemma_chunk_start_in_buffer(size as nat, i as nat, CHUNK_LEN as nat);
    }
    let start = i * CHUNK_LEN;
    let len = if size - start < CHUNK_LEN {
        size - start
    } else {
        CHUNK_LEN
    };
    (start, len)
}

/// A chunk index below the chunk count starts strictly inside the buffer.
proof fn lemma_chunk_start_in_buffer(size: nat, i: nat, chunk: nat)
    requires
        chunk > 0,
        i < spec_chunk_count(size, chunk),
    ensures
        i * chunk < size,
{
    let c = chunk as int;
    assert(size > 0) by {
        if size == 0 {
            assert(spec_chunk_count(size, chunk) == (c - 1) / c);
            vstd::arithmetic::div_mod::lemma_basic_div(c - 1, c);
        }
    }
    // n == 1 + (size - 1) / c
    vstd::arithmetic::div_mod::lemma_div_plus_one(size - 1, c);
    // i <= (size - 1) / c, so i * c <= ((size - 1) / c) * c <= size - 1
    vstd::arithmetic::mul::lemma_mul_inequality(i as int, (size - 1) / c, c);
    vstd::arithmetic::div_mod::lemma_fundamental_div_mod(size - 1, c);
    vstd::arithmetic::div_mod::lemma_mod_bound(size - 1, c);
}

/// The chunks tile `[0, size)` exactly: the first starts at offset zero, each
/// chunk ends where the next begins, the last ends at `size`, every chunk is
/// nonempty and at most `chunk` long, the last is `size % chunk` long when
/// that is nonzero and a full chunk otherwise, and every byte offset lies in
/// the chunk whose index is its offset divided by `chunk` — no gaps, no
/// overlaps.
pub proof fn lemma_chunks_cover(size: nat, chunk: nat)
    requires
        chunk > 0,
        size > 0,
    ensures
        spec_chunk_count(size, chunk) > 0,
        spec_chunk_start(0, chunk) == 0,
        forall|i: nat| i < spec_chunk_count(size, chunk) ==> {
            &&& 0 < #[trigger] spec_chunk_len(size, i, chunk) <= chunk
            &&& spec_chunk_start(i, chunk) + spec_chunk_len(size, i, chunk) <= size
        },
        forall|i: nat| i + 1 < spec_chunk_count(size, chunk)
            ==> #[trigger] spec_chunk_start(i, chunk) + spec_chunk_len(size, i, chunk)
                == spec_chunk_start(i + 1, chunk),
        spec_chunk_start((spec_chunk_count(size, chunk) - 1) as nat, chunk)
            + spec_chunk_len(size, (spec_chunk_count(size, chunk) - 1) as nat, chunk) == size,
        spec_chunk_len(size, (spec_chunk_count(size, chunk) - 1) as nat, chunk)
            == if size % chunk == 0 { chunk as int } else { (size % chunk) as int },
        forall|k: nat| k < size ==> {
            &&& (#[trigger] (k / chunk)) < spec_chunk_count(size, chunk)
            &&& spec_chunk_start(k / chunk, chunk) <= k
            &&& k < spec_chunk_start(k / chunk, chunk) + spec_chunk_len(size, k / chunk, chunk)
        },
{
    let c = chunk as int;
    let sz = size as int;
    let n = spec_chunk_count(size, chunk) as int;
    vstd::arithmetic::div_mod::lemma_div_plus_one(size - 1, c);
    vstd::arithmetic::div_mod::lemma_fundamental_div_mod(size - 1, c);
    vstd::arithmetic::div_mod::lemma_mod_bound(size - 1, c);
    assert(n == 1 + (size - 1) / c);

    assert forall|i: nat| i < spec_chunk_count(size, chunk) implies {
        &&& 0 < #[trigger] spec_chunk_len(size, i, chunk) <= chunk
        &&& spec_chunk_start(i, chunk) + spec_chunk_len(size, i, chunk) <= size
    } by {
        lemma_chunk_start_in_buffer(size, i, chunk);
    }

    assert forall|i: nat| i + 1 < spec_chunk_count(size, chunk)
        implies #[trigger] spec_chunk_start(i, chunk) + spec_chunk_len(size, i, chunk)
            == spec_chunk_start(i + 1, chunk) by {
        lemma_chunk_start_in_buffer(size, i + 1, chunk);
        assert((i + 1) * c == i * c + c) by (nonlinear_arith);
        // (i + 1) * c < size, so the chunk at i is full.
    }

    let last = (n - 1) as nat;
    let q = (sz - 1) / c;
    let r = (sz - 1) % c;
    vstd::arithmetic::div_mod::lemma_div_pos_is_pos(sz - 1, c);
    assert(last == q);
    lemma_chunk_start_in_buffer(size, last, chunk);
    assert(sz == c * q + r + 1);
    assert(q * c == c * q) by (nonlinear_arith);
    assert(spec_chunk_start(last, chunk) == q * c);
    assert(spec_chunk_len(size, last, chunk) == r + 1);
    if r == c - 1 {
        assert(sz == (q + 1) * c) by (nonlinear_arith)
            requires
                sz == c * q + r + 1,
                r == c - 1,
        ;
        vstd::arithmetic::div_mod::lemma_mod_multiples_basic(q + 1, c);
        assert(size % chunk == 0);
        assert(spec_chunk_len(size, last, chunk) == chunk);
    } else {
        vstd::arithmetic::div_mod::lemma_fundamental_div_mod_converse(sz, c, q, r + 1);
        assert(size % chunk == r + 1);
        assert(size % chunk != 0);
    }

    assert forall|k: nat| k < size implies {
        &&& (#[trigger] (k / chunk)) < spec_chunk_count(size, chunk)
        &&& spec_chunk_start(k / chunk, chunk) <= k
        &&& k < spec_chunk_start(k / chunk, chunk) + spec_chunk_len(size, k / chunk, chunk)
    } by {
        let i = k / chunk;
        vstd::arithmetic::div_mod::lemma_fundamental_div_mod(k as int, c);
        vstd::arithmetic::div_mod::lemma_mod_bound(k as int, c);
        assert(i * c <= k < i * c + c);
        assert(k as int / c <= (size - 1) / c) by {
            vstd::arithmetic::div_mod::lemma_div_is_ordered(k as int, size - 1, c);
        }
    }
}

} // verus!
