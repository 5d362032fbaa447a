//! The result grid: one measurement per (block size, worker count) cell,
//! taken strictly sequentially so that measurements never contend with each
//! other for memory bandwidth.

use vstd::prelude::*;
use crate::sampler::{measure, MeasureError, Throughput};

verus! {

/// One cell of the result grid: the throughput measured for one block size
/// and one worker count.
#[derive(Clone, Copy, Debug, PartialEq, Eq, Structural)]
pub struct GridCell {
    /// Block size of the measurement, in bytes.
    pub size: usize,
    /// Worker count of the measurement.
    pub workers: usize,
    /// The measured average throughput.
    pub throughput: Throughput,
}

/// A fatal fault: the grid cell being computed when the run aborted, and
/// the measurement error that stopped it.
#[derive(Clone, Copy, Debug, PartialEq, Eq, Structural)]
pub struct GridFault {
    /// Block size of the failed cell, in bytes.
    pub size: usize,
    /// Worker count of the failed cell.
    pub workers: usize,
    /// Why the measurement failed.
    pub cause: MeasureError,
}

/// Measures every cell of the grid: for each block size in order, and for
/// each worker count from 1 through `max_workers`, one measurement at a
/// time. On success the grid holds exactly one cell per pair, in row-major
/// order — cell `k` belongs to block size `k / max_workers` and worker
/// count `k % max_workers + 1`. The first fault aborts the whole run and
/// names the cell that was being computed.
pub fn run_grid(block_sizes: &Vec<usize>, max_workers: usize, repetitions: usize) -> (r: Result<
    Vec<GridCell>,
    GridFault,
>)
    requires
        1 <= max_workers < usize::MAX,
        repetitions >= 1,
        forall|i: int| 0 <= i < block_sizes@.len() ==> block_sizes@[i] >= 1,
        block_sizes@.len() * max_workers <= usize::MAX,
    ensures
        match r {
            Ok(cells) => {
                &&& cells@.len() == block_sizes@.len() * max_workers
                &&& forall|k: int|
                    0 <= k < cells@.len() ==> {
                        &&& (#[trigger] cells@[k]).size == block_sizes@[k / (max_workers as int)]
                        &&& cells@[k].workers == k % (max_workers as int) + 1
                        &&& cells@[k].throughput.wf()
                        &&& cells@[k].throughput.bytes == cells@[k].size
                    }
            },
            Err(f) => {
                &&& 1 <= f.workers <= max_workers
                &&& exists|i: int|
                    0 <= i < block_sizes@.len() && block_sizes@[i] == f.size
            },
        },
{
    let mut cells: Vec<GridCell> = Vec::new();
    let mut i: usize = 0;
    while i < block_sizes.len()
        invariant
            i <= block_sizes@.len(),
            1 <= max_workers < usize::MAX,
            repetitions >= 1,
            forall|j: int| 0 <= j < block_sizes@.len() ==> block_sizes@[j] >= 1,
            block_sizes@.len() * max_workers <= usize::MAX,
            cells@.len() == i * max_workers,
            forall|k: int|
                0 <= k < cells@.len() ==> {
                    &&& (#[trigger] cells@[k]).size == block_sizes@[k / (max_workers as int)]
                    &&& cells@[k].workers == k % (max_workers as int) + 1
                    &&& cells@[k].throughput.wf()
                    &&& cells@[k].throughput.bytes == cells@[k].size
                },
        decreases block_sizes@.len() - i,
    {
        proof {
            vstd::arithmetic::mul::lemma_mul_inequality(
                i + 1,
                block_sizes@.len() as int,
                max_workers as int,
            );
            assert((i + 1) * (max_workers as int) == i * (max_workers as int) + max_workers)
                by (nonlinear_arith);
        }
        let size = block_sizes[i];
        let mut w: usize = 1;
        while w <= max_workers
            invariant
                1 <= w <= max_workers + 1,
                1 <= max_workers < usize::MAX,
                repetitions >= 1,
                i < block_sizes@.len(),
                size == block_sizes@[i as int],
                size >= 1,
                forall|j: int| 0 <= j < block_sizes@.len() ==> block_sizes@[j] >= 1,
                (i + 1) * (max_workers as int) == i * (max_workers as int) + max_workers,
                (i + 1) * (max_workers as int) <= usize::MAX,
                cells@.len() == i * max_workers + (w - 1),
                forall|k: int|
                    0 <= k < cells@.len() ==> {
                        &&& (#[trigger] cells@[k]).size == block_sizes@[k / (max_workers as int)]
                        &&& cells@[k].workers == k % (max_workers as int) + 1
                        &&& cells@[k].throughput.wf()
                        &&& cells@[k].throughput.bytes == cells@[k].size
                    },
            decreases max_workers + 1 - w,
        {
            match measure(size, repetitions, w) {
                Ok(t) => {
                    cells.push(GridCell { size, workers: w, throughput: t });
                    proof {
                        vstd::arithmetic::div_mod::lemma_fundamental_div_mod_converse(
                            i * (max_workers as int) + (w - 1),
                            max_workers as int,
                            i as int,
                            w - 1,
                        );
                    }
                },
                Err(e) => {
                    return Err(GridFault { size, workers: w, cause: e });
                },
            }
            w = w + 1;
        }
        i = i + 1;
    }
    proof {
        vstd::arithmetic::mul::lemma_mul_is_commutative(
            block_sizes@.len() as int,
            max_workers as int,
        );
    }
    Ok(cells)
}

} // verus!
