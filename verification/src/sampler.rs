//! The bandwidth sampler: one measurement builds a fresh worker pool, runs
//! repeated timed trials that copy a zeroed source buffer into a destination
//! buffer in parallel chunks, and folds the trial durations into an average
//! throughput.

use vstd::prelude::*;
use crate::partition::CHUNK_LEN;
use rayon::iter::{IndexedParallelIterator, ParallelIterator};
use rayon::slice::{ParallelSlice, ParallelSliceMut};

verus! {

#[verifier::external_type_specification]
#[verifier::external_body]
pub struct ExThreadPool(rayon::ThreadPool);

#[verifier::external_type_specification]
#[verifier::external_body]
pub struct ExThreadPoolBuildError(rayon::ThreadPoolBuildError);

#[verifier::external_type_specification]
#[verifier::external_body]
pub struct ExInstant(std::time::Instant);

/// Why a measurement could not produce a throughput. None of these is
/// recoverable: each aborts the measurement it occurred in.
#[derive(Clone, Copy, Debug, PartialEq, Eq, Structural)]
pub enum MeasureError {
    /// The worker pool could not be built with the requested thread count.
    PoolBuild,
    /// The summed trial durations exceed the range of `u128` nanoseconds.
    DurationOverflow,
    /// The mean trial duration was zero nanoseconds: the clock could not
    /// resolve the copy, so the throughput is undefined.
    ZeroDuration,
}

/// Average throughput of one measurement: `bytes` were copied per trial,
/// and the mean trial duration was `mean_nanos` nanoseconds, so the value
/// denoted is the exact rational `bytes * 1_000_000_000 / mean_nanos` bytes
/// per second.
#[derive(Clone, Copy, Debug, PartialEq, Eq, Structural)]
pub struct Throughput {
    /// Bytes copied in each trial.
    pub bytes: usize,
    /// Mean duration of one trial, in whole nanoseconds.
    pub mean_nanos: u128,
}

impl Throughput {
    /// Both components are positive, so the rational the pair denotes is
    /// strictly positive and finite.
    pub open spec fn wf(self) -> bool {
        &&& self.bytes >= 1
        &&& self.mean_nanos >= 1
    }

    /// The throughput in whole bytes per second, rounded down.
    pub fn whole_bytes_per_sec(&self) -> (r: u128)
        requires
            self.wf(),
        ensures
            r == self.bytes * 1_000_000_000 / self.mean_nanos as int,
    {
        proof {
            assert(self.bytes <= u64::MAX);
            vstd::arithmetic::mul::lemma_mul_inequality(
                self.bytes as int,
                u64::MAX as int,
                1_000_000_000,
            );
        }
        let scaled: u128 = (self.bytes as u128) * 1_000_000_000;
        scaled / self.mean_nanos
    }
}

/// Relies on `rayon::ThreadPoolBuilder`: `new().num_threads(workers).build()`
/// yields an isolated pool of exactly `workers` threads, or reports why the
/// pool could not be built. Nothing further is promised of the result.
#[verifier::external_body]
fn build_pool(workers: usize) -> Result<rayon::ThreadPool, rayon::ThreadPoolBuildError>
    requires
        workers >= 1,
{
    rayon::ThreadPoolBuilder::new().num_threads(workers).build()
}

/// Relies on `std::time::Instant::now`: a reading of the monotonic clock.
/// The value depends on the moment of the call, so nothing is promised of it.
#[verifier::external_body]
fn clock_now() -> std::time::Instant {
    std::time::Instant::now()
}

/// Relies on `std::time::Instant::elapsed`, converted to whole nanoseconds
/// by `Duration::as_nanos`: the wall-clock time since `start`. The value
/// depends on the moment of the call, so nothing is promised of it.
#[verifier::external_body]
fn nanos_since(start: &std::time::Instant) -> u128 {
    start.elapsed().as_nanos()
}

/// Relies on rayon: `ThreadPool::install` runs the copy inside `pool` and
/// returns only after every task has finished (a full barrier), while
/// `par_chunks_mut` and `par_chunks` split destination and source into
/// aligned disjoint chunks of at most `chunk_len` bytes each, with one
/// `copy_from_slice` task per pair. Every destination byte is thus written
/// exactly once, from the source byte at the same offset.
#[verifier::external_body]
fn pool_chunked_copy(pool: &rayon::ThreadPool, src: &Vec<u8>, dst: &mut Vec<u8>, chunk_len: usize)
    requires
        old(dst)@.len() == src@.len(),
        chunk_len >= 1,
    ensures
        final(dst)@ == src@,
{
    pool.install(|| {
        dst.par_chunks_mut(chunk_len)
            .zip(src.par_chunks(chunk_len))
            .for_each(|(d, s)| d.copy_from_slice(s));
    });
}

/// Copies `src` into `dst` through `pool`, one parallel task per
/// [`CHUNK_LEN`]-byte chunk — the tiling fixed in [`crate::partition`] —
/// and afterwards the destination holds exactly the source bytes, whatever
/// the pool's thread count.
pub fn chunked_copy(pool: &rayon::ThreadPool, src: &Vec<u8>, dst: &mut Vec<u8>)
    requires
        old(dst)@.len() == src@.len(),
    ensures
        final(dst)@ == src@,
{
    pool_chunked_copy(pool, src, dst, CHUNK_LEN);
}

/// A freshly allocated buffer of `len` zero bytes.
fn zero_buffer(len: usize) -> (v: Vec<u8>)
    ensures
        v@.len() == len,
        forall|i: int| 0 <= i < len ==> v@[i] == 0u8,
{
    let v: Vec<u8> = vec![0u8; len];
    proof {
        assert forall|i: int| 0 <= i < len implies v@[i] == 0u8 by {
            assert(cloned(0u8, v@[i]));
        }
    }
    v
}

/// One timed trial: allocates a zeroed source and a zeroed destination of
/// `size` bytes each, copies source into destination in parallel chunks
/// through `pool`, and returns the elapsed wall-clock nanoseconds, dispatch
/// and barrier included. Both buffers are released when the trial ends; the
/// duration depends on the machine and the moment, so nothing is promised
/// of the value.
fn timed_trial(pool: &rayon::ThreadPool, size: usize) -> u128
    requires
        size >= 1,
{
    let src = zero_buffer(size);
    let mut dst = zero_buffer(size);
    let start = clock_now();
    chunked_copy(pool, &src, &mut dst);
    nanos_since(&start)
}

/// Sum of a sequence of trial durations, in nanoseconds.
pub open spec fn sum_nanos(s: Seq<u128>) -> int
    decreases s.len(),
{
    if s.len() == 0 {
        0
    } else {
        sum_nanos(s.drop_last()) + s.last()
    }
}

/// Extending a prefix by one element adds that element to its sum.
proof fn lemma_sum_take_step(s: Seq<u128>, i: int)
    requires
        0 <= i < s.len(),
    ensures
        sum_nanos(s.take(i + 1)) == sum_nanos(s.take(i)) + s[i],
{
    assert(s.take(i + 1).drop_last() =~= s.take(i));
}

/// A sum of durations is non-negative.
proof fn lemma_sum_nonneg(s: Seq<u128>)
    ensures
        sum_nanos(s) >= 0,
    decreases s.len(),
{
    if s.len() != 0 {
        lemma_sum_nonneg(s.drop_last());
    }
}

/// Durations are non-negative, so no prefix sums to more than the whole.
proof fn lemma_sum_prefix_le(s: Seq<u128>, i: int)
    requires
        0 <= i <= s.len(),
    ensures
        sum_nanos(s.take(i)) <= sum_nanos(s),
    decreases s.len() - i,
{
    if i == s.len() {
        assert(s.take(i) =~= s);
    } else {
        lemma_sum_take_step(s, i);
        lemma_sum_prefix_le(s, i + 1);
    }
}

/// Folds the trial durations of one measurement into its throughput: the
/// mean duration is the nanosecond sum divided by the number of trials,
/// rounded down, and the result pairs the byte count with that mean. A sum
/// beyond `u128` nanoseconds or a mean of zero is a measurement fault.
pub fn throughput_from_trials(size: usize, trials: &Vec<u128>) -> (r: Result<
    Throughput,
    MeasureError,
>)
    requires
        size >= 1,
        trials@.len() >= 1,
    ensures
        sum_nanos(trials@) > u128::MAX ==> r == Err::<Throughput, MeasureError>(
            MeasureError::DurationOverflow,
        ),
        sum_nanos(trials@) <= u128::MAX && sum_nanos(trials@) / (trials@.len() as int) == 0 ==> r
            == Err::<Throughput, MeasureError>(MeasureError::ZeroDuration),
        sum_nanos(trials@) <= u128::MAX && sum_nanos(trials@) / (trials@.len() as int) > 0 ==> r
            == Ok::<Throughput, MeasureError>(
            Throughput {
                bytes: size,
                mean_nanos: (sum_nanos(trials@) / (trials@.len() as int)) as u128,
            },
        ),
{
    let mut total: u128 = 0;
    let mut i: usize = 0;
    while i < trials.len()
        invariant
            i <= trials@.len(),
            total == sum_nanos(trials@.take(i as int)),
        decreases trials@.len() - i,
    {
        let t = trials[i];
        if total > u128::MAX - t {
            proof {
                lemma_sum_take_step(trials@, i as int);
                lemma_sum_prefix_le(trials@, i as int + 1);
            }
            return Err(MeasureError::DurationOverflow);
        }
        total = total + t;
        proof {
            lemma_sum_take_step(trials@, i as int);
        }
        i = i + 1;
    }
    proof {
        assert(trials@.take(trials@.len() as int) =~= trials@);
    }
    let mean: u128 = total / (trials.len() as u128);
    if mean == 0 {
        Err(MeasureError::ZeroDuration)
    } else {
        Ok(Throughput { bytes: size, mean_nanos: mean })
    }
}

/// One measurement: builds a fresh, isolated pool of exactly `workers`
/// threads, runs `repetitions` timed copy trials of `size` bytes each, and
/// folds the trial durations into the average throughput. A returned
/// throughput always reports `size` bytes over a positive mean duration;
/// each error names the fault that aborted the measurement. The pool and
/// all buffers are torn down before the call returns.
pub fn measure(size: usize, repetitions: usize, workers: usize) -> (r: Result<
    Throughput,
    MeasureError,
>)
    requires
        size >= 1,
        repetitions >= 1,
        workers >= 1,
    ensures
        r matches Ok(t) ==> t.wf() && t.bytes == size,
{
    let pool = match build_pool(workers) {
        Ok(p) => p,
        Err(_) => {
            return Err(MeasureError::PoolBuild);
        },
    };
    let mut trials: Vec<u128> = Vec::new();
    let mut k: usize = 0;
    while k < repetitions
        invariant
            k <= repetitions,
            trials@.len() == k,
            size >= 1,
        decreases repetitions - k,
    {
        let d = timed_trial(&pool, size);
        trials.push(d);
        k = k + 1;
    }
    let r = throughput_from_trials(size, &trials);
    proof {
        let total = sum_nanos(trials@);
        let n = trials@.len() as int;
        lemma_sum_nonneg(trials@);
        if total <= u128::MAX {
            vstd::arithmetic::div_mod::lemma_div_is_ordered_by_denominator(total, 1, n);
            vstd::arithmetic::div_mod::lemma_div_basics_2(total);
        }
    }
    r
}

} // verus!
