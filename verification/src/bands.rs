//! Band aggregation: a captured window of samples is cut into eight
//! consecutive blocks of equal size, and each block is reduced to one value.

use vstd::prelude::*;
use vstd::slice::slice_subrange;

verus! {

/// Number of samples in one captured window.
pub const CAPTURE_SIZE: usize = 1024;

/// Number of bands a window is reduced to.
pub const BAND_COUNT: usize = 8;

/// Number of samples in the block behind one band.
pub const BLOCK_SIZE: usize = 128;

/// One captured window: the most recent `CAPTURE_SIZE` samples, oldest first.
pub type SampleBuffer<T> = [T; CAPTURE_SIZE];

/// Index of the first sample of a band's block.
pub open spec fn block_start(band: int) -> int {
    band * BLOCK_SIZE
}

/// Index just past the last sample of a band's block.
pub open spec fn block_end(band: int) -> int {
    (band + 1) * BLOCK_SIZE
}

/// The band whose block holds the sample at `index`.
pub open spec fn band_of(index: int) -> int {
    index / (BLOCK_SIZE as int)
}

/// The block of samples behind a band.
pub open spec fn band_block<T>(samples: Seq<T>, band: int) -> Seq<T> {
    samples.subrange(block_start(band), block_end(band))
}

/// `value` is a result that `block_mean` may give for the samples `block`.
pub open spec fn reduces_to<T, F: Fn(&[T]) -> T>(block_mean: F, block: Seq<T>, value: T) -> bool {
    exists|slice: &[T]| slice@ == block && call_ensures(block_mean, (slice,), value)
}

/// `bands` holds, for each band, a result of `block_mean` on that band's
/// block of `samples`.
pub open spec fn aggregates<T, F: Fn(&[T]) -> T>(
    block_mean: F,
    samples: Seq<T>,
    bands: Seq<T>,
) -> bool {
    &&& bands.len() == BAND_COUNT
    &&& forall|band: int|
        0 <= band < BAND_COUNT ==> reduces_to(
            block_mean,
            #[trigger] band_block(samples, band),
            bands[band],
        )
}

/// The eight band values of one window, lowest band first.
#[derive(Clone, Copy, Debug, PartialEq)]
pub struct BandSet<T> {
    values: [T; BAND_COUNT],
}

impl<T> View for BandSet<T> {
    type V = Seq<T>;

    closed spec fn view(&self) -> Seq<T> {
        self.values@
    }
}

impl<T: Copy> BandSet<T> {
    /// Wraps eight band values, lowest band first.
    pub fn new(values: [T; BAND_COUNT]) -> (bands: Self)
        ensures
            bands@ == values@,
    {
        BandSet { values }
    }

    /// The value of one band.
    pub fn get(&self, band: usize) -> (value: T)
        requires
            band < BAND_COUNT,
        ensures
            value == self@[band as int],
    {
        self.values[band]
    }

    /// The eight values as an array, lowest band first.
    pub fn values(&self) -> (values: [T; BAND_COUNT])
        ensures
            values@ == self@,
    {
        self.values
    }

    /// A band set always holds exactly `BAND_COUNT` values.
    pub proof fn lemma_len(self)
        ensures
            self@.len() == BAND_COUNT,
    {
    }
}

/// Reduces captured windows to band values.
pub struct BandAggregator;

impl BandAggregator {
    /// Bounds of a band's block within a window, as a half-open index range.
    pub fn block_bounds(band: usize) -> (bounds: (usize, usize))
        requires
            band < BAND_COUNT,
        ensures
            bounds.0 == block_start(band as int),
            bounds.1 == block_end(band as int),
            bounds.0 < bounds.1 <= CAPTURE_SIZE,
    {
        (band * BLOCK_SIZE, (band + 1) * BLOCK_SIZE)
    }

    /// Applies `block_mean` to the block of one band.
    fn reduce_block<T: Copy, F: Fn(&[T]) -> T>(
        buf: &SampleBuffer<T>,
        band: usize,
        block_mean: &F,
    ) -> (value: T)
        requires
            band < BAND_COUNT,
            forall|block: &[T]| block@.len() == BLOCK_SIZE ==> call_requires(*block_mean, (block,)),
        ensures
            reduces_to(*block_mean, band_block(buf@, band as int), value),
    {
        let (start, end) = Self::block_bounds(band);
        let block: &[T] = slice_subrange(buf.as_slice(), start, end);
        block_mean(block)
    }

    /// Reduces a window to its eight bands.
    ///
    /// The window is cut into `BAND_COUNT` consecutive blocks of `BLOCK_SIZE`
    /// samples, and `block_mean` is applied to each block in turn, lowest
    /// band first. The caller supplies `block_mean`, the arithmetic mean of a
    /// block, because it is computed in floating point.
    pub fn reduce<T: Copy, F: Fn(&[T]) -> T>(buf: &SampleBuffer<T>, block_mean: F) -> (bands:
        BandSet<T>)
        requires
            forall|block: &[T]| block@.len() == BLOCK_SIZE ==> call_requires(block_mean, (block,)),
        ensures
            aggregates(block_mean, buf@, bands@),
    {
        let b0 = Self::reduce_block(buf, 0, &block_mean);
        let b1 = Self::reduce_block(buf, 1, &block_mean);
        let b2 = Self::reduce_block(buf, 2, &block_mean);
        let b3 = Self::reduce_block(buf, 3, &block_mean);
        let b4 = Self::reduce_block(buf, 4, &block_mean);
        let b5 = Self::reduce_block(buf, 5, &block_mean);
        let b6 = Self::reduce_block(buf, 6, &block_mean);
        let b7 = Self::reduce_block(buf, 7, &block_mean);
        BandSet::new([b0, b1, b2, b3, b4, b5, b6, b7])
    }
}

/// The blocks cover a window exactly once: laid end to end, lowest band
/// first, they give back the window, with no gap and no overlap.
pub proof fn lemma_blocks_tile_window<T>(samples: Seq<T>)
    requires
        samples.len() == CAPTURE_SIZE,
    ensures
        band_block(samples, 0) + band_block(samples, 1) + band_block(samples, 2) + band_block(
            samples,
            3,
        ) + band_block(samples, 4) + band_block(samples, 5) + band_block(samples, 6) + band_block(
            samples,
            7,
        ) =~= samples,
{
}

/// Every sample of a window lies in the block of exactly one band, the band
/// `band_of` its index, and keeps its place within that block.
pub proof fn lemma_sample_in_one_block<T>(samples: Seq<T>, index: int)
    requires
        samples.len() == CAPTURE_SIZE,
        0 <= index < CAPTURE_SIZE,
    ensures
        0 <= band_of(index) < BAND_COUNT,
        band_block(samples, band_of(index))[index - block_start(band_of(index))] == samples[index],
        forall|band: int|
            0 <= band < BAND_COUNT ==> ((#[trigger] block_start(band) <= index < block_end(band))
                <==> band == band_of(index)),
{
}

/// Every block of a window holds exactly `BLOCK_SIZE` samples.
pub proof fn lemma_block_len<T>(samples: Seq<T>, band: int)
    requires
        samples.len() == CAPTURE_SIZE,
        0 <= band < BAND_COUNT,
    ensures
        band_block(samples, band).len() == BLOCK_SIZE,
{
}

/// The block of `BLOCK_SIZE` samples that all equal `value`.
pub open spec fn constant_block<T>(value: T) -> Seq<T> {
    Seq::new(BLOCK_SIZE as nat, |i: int| value)
}

/// In a window whose samples all equal one value, every block is the
/// constant block of that value.
pub proof fn lemma_blocks_of_constant_window<T>(samples: Seq<T>, value: T, band: int)
    requires
        samples.len() == CAPTURE_SIZE,
        forall|i: int| 0 <= i < samples.len() ==> samples[i] == value,
        0 <= band < BAND_COUNT,
    ensures
        band_block(samples, band) == constant_block(value),
{
    assert(band_block(samples, band) =~= constant_block(value));
}

/// The bands of a constant window are all alike: if `block_mean` gives
/// nothing but `mean` for the constant block of `value`, then every band of
/// a window that holds nothing but `value` is `mean`. With a `block_mean`
/// that gives `value` itself for that block, every band is `value`; for a
/// silent window, every band is silent.
pub proof fn lemma_bands_of_constant_window<T, F: Fn(&[T]) -> T>(
    block_mean: F,
    samples: Seq<T>,
    bands: Seq<T>,
    value: T,
    mean: T,
)
    requires
        samples.len() == CAPTURE_SIZE,
        forall|i: int| 0 <= i < samples.len() ==> samples[i] == value,
        aggregates(block_mean, samples, bands),
        forall|slice: &[T], result: T|
            slice@ == constant_block(value) && #[trigger] call_ensures(block_mean, (slice,), result)
                ==> result == mean,
    ensures
        bands.len() == BAND_COUNT,
        forall|band: int| 0 <= band < BAND_COUNT ==> #[trigger] bands[band] == mean,
{
    assert forall|band: int| 0 <= band < BAND_COUNT implies #[trigger] bands[band] == mean by {
        lemma_blocks_of_constant_window(samples, value, band);
        assert(reduces_to(block_mean, band_block(samples, band), bands[band]));
    }
}

/// Two windows that agree on the block of a band give that band the same
/// choice of values: what lies outside the block plays no part.
pub proof fn lemma_band_reads_its_block_only<T, F: Fn(&[T]) -> T>(
    block_mean: F,
    first: Seq<T>,
    second: Seq<T>,
    band: int,
    value: T,
)
    requires
        first.len() == CAPTURE_SIZE,
        second.len() == CAPTURE_SIZE,
        0 <= band < BAND_COUNT,
        forall|i: int| block_start(band) <= i < block_end(band) ==> first[i] == second[i],
    ensures
        reduces_to(block_mean, band_block(first, band), value) <==> reduces_to(
            block_mean,
            band_block(second, band),
            value,
        ),
{
    assert(band_block(first, band) =~= band_block(second, band));
}

} // verus!
