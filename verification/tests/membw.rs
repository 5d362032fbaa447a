use membw::grid::run_grid;
use membw::partition::{chunk_count, chunk_span, CHUNK_LEN};
use membw::sampler::{chunked_copy, measure, throughput_from_trials, MeasureError, Throughput};
use membw::table::{decimal_string, markdown_table};
use membw::units::{unit_for, ByteUnit};

fn pool_with(workers: usize) -> rayon::ThreadPool {
    rayon::ThreadPoolBuilder::new()
        .num_threads(workers)
        .build()
        .expect("pool")
}

#[test]
fn chunk_count_values() {
    assert_eq!(chunk_count(0), 0);
    assert_eq!(chunk_count(1), 1);
    assert_eq!(chunk_count(CHUNK_LEN - 1), 1);
    assert_eq!(chunk_count(CHUNK_LEN), 1);
    assert_eq!(chunk_count(CHUNK_LEN + 1), 2);
    assert_eq!(chunk_count(1_500_000), 2);
    assert_eq!(chunk_count(100 * 1024 * 1024), 100);
}

#[test]
fn chunk_spans_tile_unaligned_size() {
    // 1_500_000 is not a multiple of the 1 MiB chunk length.
    let size: usize = 1_500_000;
    assert_eq!(chunk_span(size, 0), (0, CHUNK_LEN));
    assert_eq!(chunk_span(size, 1), (CHUNK_LEN, size - CHUNK_LEN));

    // The spans are contiguous, start at zero, and end at `size`.
    let mut expected_start: usize = 0;
    for i in 0..chunk_count(size) {
        let (start, len) = chunk_span(size, i);
        assert_eq!(start, expected_start);
        assert!(len >= 1);
        assert!(len <= CHUNK_LEN);
        expected_start = start + len;
    }
    assert_eq!(expected_start, size);
}

#[test]
fn chunk_spans_tile_aligned_size() {
    let size: usize = 3 * CHUNK_LEN;
    assert_eq!(chunk_count(size), 3);
    let mut expected_start: usize = 0;
    for i in 0..3 {
        let (start, len) = chunk_span(size, i);
        assert_eq!(start, expected_start);
        assert_eq!(len, CHUNK_LEN);
        expected_start = start + len;
    }
    assert_eq!(expected_start, size);
}

#[test]
fn copy_preserves_bytes_for_every_worker_count() {
    // A patterned source longer than two chunks, with a partial last chunk.
    let size = 2 * CHUNK_LEN + 12_345;
    let mut src: Vec<u8> = Vec::with_capacity(size);
    for i in 0..size {
        src.push((i % 251) as u8);
    }
    for workers in 1..=4 {
        let pool = pool_with(workers);
        let mut dst: Vec<u8> = vec![0u8; size];
        chunked_copy(&pool, &src, &mut dst);
        assert_eq!(dst, src);
    }
}

#[test]
fn averaging_three_trials_is_the_arithmetic_mean() {
    // Trials of 1.0 s, 2.0 s and 3.0 s average to 2.0 s, so the reported
    // throughput is exactly size / 2.0 bytes per second.
    let size: usize = 1_048_576;
    let trials: Vec<u128> = vec![1_000_000_000, 2_000_000_000, 3_000_000_000];
    let t = throughput_from_trials(size, &trials).expect("throughput");
    assert_eq!(
        t,
        Throughput {
            bytes: size,
            mean_nanos: 2_000_000_000,
        }
    );
    assert_eq!(t.whole_bytes_per_sec(), (size / 2) as u128);
    let bps = t.bytes as f64 * 1e9 / t.mean_nanos as f64;
    assert_eq!(bps, size as f64 / 2.0);
}

#[test]
fn averaging_rounds_the_mean_down_to_whole_nanoseconds() {
    let trials: Vec<u128> = vec![1, 2];
    let t = throughput_from_trials(10, &trials).expect("throughput");
    assert_eq!(t.mean_nanos, 1);
    assert_eq!(t.bytes, 10);
}

#[test]
fn zero_mean_duration_is_a_measurement_fault() {
    let trials: Vec<u128> = vec![0];
    assert_eq!(
        throughput_from_trials(1, &trials),
        Err(MeasureError::ZeroDuration)
    );
    // A positive sum can still floor to a zero mean.
    let trials: Vec<u128> = vec![1, 0];
    assert_eq!(
        throughput_from_trials(1, &trials),
        Err(MeasureError::ZeroDuration)
    );
}

#[test]
fn duration_sum_overflow_is_a_measurement_fault() {
    let trials: Vec<u128> = vec![u128::MAX, 1];
    assert_eq!(
        throughput_from_trials(1, &trials),
        Err(MeasureError::DurationOverflow)
    );
}

#[test]
fn measure_reports_positive_finite_throughput() {
    let t = measure(1_048_576, 2, 2).expect("measurement");
    assert_eq!(t.bytes, 1_048_576);
    assert!(t.mean_nanos >= 1);
    let bps = t.bytes as f64 * 1e9 / t.mean_nanos as f64;
    assert!(bps > 0.0);
    assert!(bps.is_finite());
}

#[test]
fn measure_handles_partial_final_chunk() {
    // 1_500_000 bytes leave a 451_424-byte final chunk across 4 workers.
    let t = measure(1_500_000, 1, 4).expect("measurement");
    assert_eq!(t.bytes, 1_500_000);
    assert!(t.mean_nanos >= 1);
}

#[test]
fn throughput_does_not_collapse_as_workers_grow() {
    // Holding size fixed while workers go from 1 to the machine's CPU
    // count, every measurement still yields a usable positive throughput.
    let max = num_cpus::get().clamp(1, 8);
    for workers in 1..=max {
        let t = measure(4 * CHUNK_LEN, 1, workers).expect("measurement");
        assert!(t.whole_bytes_per_sec() > 0);
    }
}

#[test]
fn grid_is_row_major_and_complete() {
    let block_sizes: Vec<usize> = vec![65_536, CHUNK_LEN + 7];
    let cells = run_grid(&block_sizes, 2, 1).expect("grid");
    assert_eq!(cells.len(), 4);
    for (k, cell) in cells.iter().enumerate() {
        assert_eq!(cell.size, block_sizes[k / 2]);
        assert_eq!(cell.workers, k % 2 + 1);
        assert_eq!(cell.throughput.bytes, cell.size);
        assert!(cell.throughput.mean_nanos >= 1);
    }
}

#[test]
fn grid_of_no_sizes_is_empty() {
    let block_sizes: Vec<usize> = Vec::new();
    let cells = run_grid(&block_sizes, 3, 1).expect("grid");
    assert!(cells.is_empty());
}

#[test]
fn units_switch_at_powers_of_1024() {
    assert_eq!(unit_for(0), ByteUnit::Bytes);
    assert_eq!(unit_for(1023), ByteUnit::Bytes);
    assert_eq!(unit_for(1024), ByteUnit::Kilo);
    assert_eq!(unit_for(1024 * 1024 - 1), ByteUnit::Kilo);
    assert_eq!(unit_for(1024 * 1024), ByteUnit::Mega);
    assert_eq!(unit_for(1024 * 1024 * 1024 - 1), ByteUnit::Mega);
    assert_eq!(unit_for(1024 * 1024 * 1024), ByteUnit::Giga);
    assert_eq!(unit_for(u128::MAX), ByteUnit::Giga);
}

#[test]
fn unit_divisors() {
    assert_eq!(ByteUnit::Bytes.divisor(), 1);
    assert_eq!(ByteUnit::Kilo.divisor(), 1024);
    assert_eq!(ByteUnit::Mega.divisor(), 1024 * 1024);
    assert_eq!(ByteUnit::Giga.divisor(), 1024 * 1024 * 1024);
}

#[test]
fn decimal_strings() {
    assert_eq!(decimal_string(0), "0");
    assert_eq!(decimal_string(7), "7");
    assert_eq!(decimal_string(10), "10");
    assert_eq!(decimal_string(42), "42");
    assert_eq!(decimal_string(12345), "12345");
    assert_eq!(decimal_string(u64::MAX), "18446744073709551615");
}

#[test]
fn markdown_table_layout() {
    let labels = vec!["100 bytes".to_string(), "2.00 KB".to_string()];
    let cells = vec![
        "1.00 GB/s".to_string(),
        "2.00 GB/s".to_string(),
        "3.00 GB/s".to_string(),
        "4.00 GB/s".to_string(),
    ];
    let table = markdown_table(&labels, &cells, 2);
    assert_eq!(
        table,
        "| Block Size | 1 Cores | 2 Cores |\n|---|---|---|\n| 100 bytes | 1.00 GB/s | 2.00 GB/s |\n| 2.00 KB | 3.00 GB/s | 4.00 GB/s |"
    );
}
