//! The integer side of the audio spectrum: which FFT bins make up each
//! frequency band, and where the overlapping analysis windows start in the
//! buffered samples.
use vstd::prelude::*;

verus! {

/// Samples per second of the recording.
pub const SAMPLE_RATE: u32 = 48000;

/// Samples in one FFT window.
pub const FFT_SIZE: usize = 2048;

/// Frequency bands in a level report.
pub const NUM_BANDS: usize = 9;

/// Samples the window moves by between reports: about 33 ms of audio.
pub const SAMPLES_PER_FRAME: usize = 1584;

/// The edges of the frequency bands in Hz: band `b` lies between edges `b`
/// and `b + 1`.
pub open spec fn band_edges() -> Seq<u32> {
    seq![30, 60, 150, 400, 1000, 2500, 6000, 12000, 16000, 20000]
}

/// The first FFT bin at or above `hz`: bins are `SAMPLE_RATE / FFT_SIZE`
/// Hz apart.
pub open spec fn bin_at_or_above(hz: int) -> int {
    (hz * FFT_SIZE + SAMPLE_RATE - 1) / (SAMPLE_RATE as int)
}

/// The bins of band `b`: from the first bin at or above its lower edge up to,
/// not including, the first bin at or above its upper edge, and never past
/// the Nyquist bin.
pub open spec fn band_bins(b: int) -> (int, int) {
    let low = bin_at_or_above(band_edges()[b] as int);
    let high = bin_at_or_above(band_edges()[b + 1] as int);
    (low, if high < FFT_SIZE / 2 {
        high
    } else {
        (FFT_SIZE / 2) as int
    })
}

fn band_edge_table() -> (t: Vec<u32>)
    ensures
        t@ == band_edges(),
{
    let t = vec![30, 60, 150, 400, 1000, 2500, 6000, 12000, 16000, 20000];
    assert(t@ =~= band_edges());
    t
}

/// The first FFT bin at or above `hz`.
fn first_bin(hz: u32) -> (r: usize)
    requires
        hz <= 24000,
    ensures
        r as int == bin_at_or_above(hz as int),
{
    let n: u64 = (hz as u64) * 2048 + 47999;
    (n / 48000) as usize
}

/// The range of FFT bins of each band, lowest band first.
pub fn band_bin_ranges() -> (r: Vec<(usize, usize)>)
    ensures
        r@.len() == NUM_BANDS,
        forall|b: int| 0 <= b < NUM_BANDS ==> (#[trigger] r@[b].0 as int, r@[b].1 as int) == band_bins(b),
{
    let edges = band_edge_table();
    let mut r: Vec<(usize, usize)> = Vec::new();
    let mut b: usize = 0;
    while b < NUM_BANDS
        invariant
            edges@ == band_edges(),
            b <= NUM_BANDS,
            r@.len() == b,
            forall|j: int| 0 <= j < b ==> (#[trigger] r@[j].0 as int, r@[j].1 as int) == band_bins(j),
        decreases NUM_BANDS - b,
    {
        assert(edges@[b as int] <= 24000 && edges@[b + 1] <= 24000) by {
            assert(forall|i: int| 0 <= i < 10 ==> #[trigger] band_edges()[i] <= 20000) by {
                assert(band_edges()[0] <= 20000);
            }
        }
        let low = first_bin(edges[b]);
        let high = first_bin(edges[b + 1]);
        let high = if high < FFT_SIZE / 2 {
            high
        } else {
            FFT_SIZE / 2
        };
        r.push((low, high));
        b = b + 1;
    }
    r
}

/// How many analysis windows a buffer of `n` samples yields: one for every
/// full window, each moving on by `SAMPLES_PER_FRAME`.
pub open spec fn window_count(n: int) -> nat
    decreases n,
{
    if n >= FFT_SIZE {
        1 + window_count(n - SAMPLES_PER_FRAME)
    } else {
        0
    }
}

/// Where the analysis windows start in a buffer of `buffered` samples; the
/// samples before the end of the last window's move are used up.
pub fn window_starts(buffered: usize) -> (r: Vec<usize>)
    ensures
        r@.len() == window_count(buffered as int),
        forall|i: int| 0 <= i < r@.len() ==> #[trigger] r@[i] == i * SAMPLES_PER_FRAME,
{
    let mut r: Vec<usize> = Vec::new();
    let mut start: usize = 0;
    let mut left: usize = buffered;
    while left >= FFT_SIZE
        invariant
            start + left == buffered,
            start == r@.len() * SAMPLES_PER_FRAME,
            r@.len() + window_count(left as int) == window_count(buffered as int),
            forall|i: int| 0 <= i < r@.len() ==> #[trigger] r@[i] == i * SAMPLES_PER_FRAME,
        decreases left,
    {
        r.push(start);
        start = start + SAMPLES_PER_FRAME;
        left = left - SAMPLES_PER_FRAME;
    }
    r
}

/// Every window that starts lies within the buffer.
pub proof fn law_windows_fit(n: int, i: int)
    requires
        0 <= n,
        0 <= i < window_count(n),
    ensures
        i * SAMPLES_PER_FRAME + FFT_SIZE <= n,
    decreases n,
{
    if i > 0 {
        law_windows_fit(n - SAMPLES_PER_FRAME, i - 1);
    }
}

} // verus!
