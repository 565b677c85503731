use vstd::prelude::*;
use vstd::arithmetic::div_mod::lemma_fundamental_div_mod;
use vstd::arithmetic::mul::lemma_mul_inequality;
use crate::grid::{Pixel, PixelGrid};
use crate::hex::{append_byte_hex_upper, hex2_upper};

verus! {

/// Sum of a sequence of bytes, as an unbounded integer.
pub open spec fn sum_u8s(s: Seq<u8>) -> int
    decreases s.len(),
{
    if s.len() == 0 {
        0
    } else {
        sum_u8s(s.drop_last()) + s.last()
    }
}

/// The red channel of a pixel sequence.
pub open spec fn reds(p: Seq<Pixel>) -> Seq<u8> {
    p.map_values(|x: Pixel| x.r)
}

/// The green channel of a pixel sequence.
pub open spec fn greens(p: Seq<Pixel>) -> Seq<u8> {
    p.map_values(|x: Pixel| x.g)
}

/// The blue channel of a pixel sequence.
pub open spec fn blues(p: Seq<Pixel>) -> Seq<u8> {
    p.map_values(|x: Pixel| x.b)
}

/// A byte sum lies between 0 and 255 per element.
pub proof fn lemma_sum_u8s_bounds(s: Seq<u8>)
    ensures
        0 <= sum_u8s(s) <= 255 * s.len(),
    decreases s.len(),
{
    if s.len() > 0 {
        lemma_sum_u8s_bounds(s.drop_last());
    }
}

/// Cutting a sequence anywhere splits its sum: the two pieces of a cut sum
/// to the whole. This is what makes the partitioned reduction agree with
/// the sequential one.
pub proof fn lemma_sum_u8s_split(s: Seq<u8>, i: int)
    requires
        0 <= i <= s.len(),
    ensures
        sum_u8s(s) == sum_u8s(s.subrange(0, i)) + sum_u8s(s.subrange(i, s.len() as int)),
    decreases s.len(),
{
    if i == s.len() {
        assert(s.subrange(0, i) =~= s);
        assert(s.subrange(i, s.len() as int).len() == 0);
    } else {
        let dl = s.drop_last();
        lemma_sum_u8s_split(dl, i);
        assert(dl.subrange(0, i) =~= s.subrange(0, i));
        assert(dl.subrange(i, dl.len() as int) =~= s.subrange(i, s.len() as int).drop_last());
        assert(s.subrange(i, s.len() as int).last() == s.last());
    }
}

/// Channel sums of the pixels with flattened index in [lo, hi): the work of
/// one reduction worker. Read-only on the grid; each worker owns its own
/// accumulators.
pub fn channel_sums_range(grid: &PixelGrid, lo: usize, hi: usize) -> (r: (u64, u64, u64))
    requires
        grid.wf(),
        lo <= hi <= grid.pixels@.len(),
    ensures
        r.0 == sum_u8s(reds(grid.pixels@).subrange(lo as int, hi as int)),
        r.1 == sum_u8s(greens(grid.pixels@).subrange(lo as int, hi as int)),
        r.2 == sum_u8s(blues(grid.pixels@).subrange(lo as int, hi as int)),
{
    let ghost rs = reds(grid.pixels@);
    let ghost gs = greens(grid.pixels@);
    let ghost bs = blues(grid.pixels@);
    let mut sr: u64 = 0;
    let mut sg: u64 = 0;
    let mut sb: u64 = 0;
    let mut i: usize = lo;
    while i < hi
        invariant
            lo <= i <= hi <= grid.pixels@.len(),
            grid.wf(),
            rs == reds(grid.pixels@),
            gs == greens(grid.pixels@),
            bs == blues(grid.pixels@),
            sr == sum_u8s(rs.subrange(lo as int, i as int)),
            sg == sum_u8s(gs.subrange(lo as int, i as int)),
            sb == sum_u8s(bs.subrange(lo as int, i as int)),
        decreases hi - i,
    {
        proof {
            lemma_sum_u8s_bounds(rs.subrange(lo as int, i as int));
            lemma_sum_u8s_bounds(gs.subrange(lo as int, i as int));
            lemma_sum_u8s_bounds(bs.subrange(lo as int, i as int));
            assert(rs.subrange(lo as int, i as int + 1).drop_last() =~= rs.subrange(
                lo as int,
                i as int,
            ));
            assert(gs.subrange(lo as int, i as int + 1).drop_last() =~= gs.subrange(
                lo as int,
                i as int,
            ));
            assert(bs.subrange(lo as int, i as int + 1).drop_last() =~= bs.subrange(
                lo as int,
                i as int,
            ));
        }
        let px = grid.pixels[i];
        sr = sr + px.r as u64;
        sg = sg + px.g as u64;
        sb = sb + px.b as u64;
        i = i + 1;
    }
    (sr, sg, sb)
}

/// A value forced into [0, 255].
pub open spec fn clamp255(v: int) -> int {
    if v < 0 {
        0
    } else if v > 255 {
        255
    } else {
        v
    }
}

/// sum / count rounded to the nearest integer, halves up.
pub open spec fn round_div(sum: int, count: int) -> int {
    (2 * sum + count) / (2 * count)
}

/// One channel of the mean color: the channel sum divided by the pixel
/// count, rounded to nearest, clamped to an 8-bit value.
pub open spec fn avg_channel(sum: int, count: int) -> int {
    clamp255(round_div(sum, count))
}

/// The canonical color for given channel sums over `count` pixels:
/// `#RRGGBB`, two uppercase hex digits per channel.
pub open spec fn color_of_sums(sr: int, sg: int, sb: int, count: int) -> Seq<char> {
    seq!['#'] + hex2_upper(avg_channel(sr, count)) + hex2_upper(avg_channel(sg, count))
        + hex2_upper(avg_channel(sb, count))
}

/// The canonical color of a pixel sequence: the arithmetic mean of each
/// channel over all pixels, rendered as `#RRGGBB`.
pub open spec fn average_color_spec(p: Seq<Pixel>) -> Seq<char> {
    color_of_sums(sum_u8s(reds(p)), sum_u8s(greens(p)), sum_u8s(blues(p)), p.len() as int)
}

/// One channel's mean, rounded half up and clamped.
fn round_channel(sum: u64, count: u64) -> (r: u8)
    requires
        1 <= count <= u32::MAX,
        sum <= 255 * (count as int),
    ensures
        r as int == avg_channel(sum as int, count as int),
{
    let v: u64 = (2 * sum + count) / (2 * count);
    if v > 255 {
        255
    } else {
        v as u8
    }
}

/// Renders the mean color for the given channel sums as `#RRGGBB`.
fn color_from_sums(sr: u64, sg: u64, sb: u64, count: u64) -> (r: String)
    requires
        1 <= count <= u32::MAX,
        sr <= 255 * (count as int),
        sg <= 255 * (count as int),
        sb <= 255 * (count as int),
    ensures
        r@ == color_of_sums(sr as int, sg as int, sb as int, count as int),
{
    let ar = round_channel(sr, count);
    let ag = round_channel(sg, count);
    let ab = round_channel(sb, count);
    let mut s = String::from_str("#");
    proof {
        reveal_strlit("#");
    }
    append_byte_hex_upper(&mut s, ar);
    append_byte_hex_upper(&mut s, ag);
    append_byte_hex_upper(&mut s, ab);
    assert(s@ =~= color_of_sums(sr as int, sg as int, sb as int, count as int));
    s
}

/// The arithmetic mean color of a grid, computed in one sequential pass:
/// per-channel sums over every pixel, then round-to-nearest division by the
/// pixel count, formatted as `#RRGGBB` with uppercase hex digits.
pub fn average_color(grid: &PixelGrid) -> (r: String)
    requires
        grid.wf(),
        grid.pixels@.len() > 0,
    ensures
        r@ == average_color_spec(grid.pixels@),
{
    let count = grid.pixels.len();
    let (sr, sg, sb) = channel_sums_range(grid, 0, count);
    proof {
        assert(reds(grid.pixels@).subrange(0, count as int) =~= reds(grid.pixels@));
        assert(greens(grid.pixels@).subrange(0, count as int) =~= greens(grid.pixels@));
        assert(blues(grid.pixels@).subrange(0, count as int) =~= blues(grid.pixels@));
        lemma_sum_u8s_bounds(reds(grid.pixels@));
        lemma_sum_u8s_bounds(greens(grid.pixels@));
        lemma_sum_u8s_bounds(blues(grid.pixels@));
    }
    color_from_sums(sr, sg, sb, count as u64)
}

/// Channel sums computed in `workers` contiguous, non-overlapping ranges of
/// flattened pixel indices, each the work of one worker, then combined.
/// Every pixel is covered exactly once for any worker count; the last range
/// absorbs the remainder. The result is identical to the single sequential
/// pass over the whole grid — concurrency is only a throughput choice.
pub fn partitioned_sums(grid: &PixelGrid, workers: usize) -> (r: (u64, u64, u64))
    requires
        grid.wf(),
        workers >= 1,
    ensures
        r.0 == sum_u8s(reds(grid.pixels@)),
        r.1 == sum_u8s(greens(grid.pixels@)),
        r.2 == sum_u8s(blues(grid.pixels@)),
{
    let ghost rs = reds(grid.pixels@);
    let ghost gs = greens(grid.pixels@);
    let ghost bs = blues(grid.pixels@);
    let count = grid.pixels.len();
    let chunk: usize = count / workers;
    let mut sr: u64 = 0;
    let mut sg: u64 = 0;
    let mut sb: u64 = 0;
    let mut done: usize = 0;
    let mut k: usize = 0;
    while k < workers
        invariant
            grid.wf(),
            workers >= 1,
            k <= workers,
            count == grid.pixels@.len(),
            chunk == count as int / workers as int,
            rs == reds(grid.pixels@),
            gs == greens(grid.pixels@),
            bs == blues(grid.pixels@),
            if k < workers {
                done == k * chunk
            } else {
                done == count
            },
            done <= count,
            sr == sum_u8s(rs.subrange(0, done as int)),
            sg == sum_u8s(gs.subrange(0, done as int)),
            sb == sum_u8s(bs.subrange(0, done as int)),
        decreases workers - k,
    {
        proof {
            lemma_fundamental_div_mod(count as int, workers as int);
            lemma_mul_inequality(k as int + 1, workers as int, chunk as int);
            assert((k + 1) * chunk == k * chunk + chunk) by (nonlinear_arith);
            assert(workers as int * chunk as int <= count as int);
        }
        let hi: usize = if k == workers - 1 {
            count
        } else {
            done + chunk
        };
        let (pr, pg, pb) = channel_sums_range(grid, done, hi);
        proof {
            lemma_sum_u8s_split(rs.subrange(0, hi as int), done as int);
            lemma_sum_u8s_split(gs.subrange(0, hi as int), done as int);
            lemma_sum_u8s_split(bs.subrange(0, hi as int), done as int);
            assert(rs.subrange(0, hi as int).subrange(0, done as int) =~= rs.subrange(
                0,
                done as int,
            ));
            assert(rs.subrange(0, hi as int).subrange(done as int, hi as int) =~= rs.subrange(
                done as int,
                hi as int,
            ));
            assert(gs.subrange(0, hi as int).subrange(0, done as int) =~= gs.subrange(
                0,
                done as int,
            ));
            assert(gs.subrange(0, hi as int).subrange(done as int, hi as int) =~= gs.subrange(
                done as int,
                hi as int,
            ));
            assert(bs.subrange(0, hi as int).subrange(0, done as int) =~= bs.subrange(
                0,
                done as int,
            ));
            assert(bs.subrange(0, hi as int).subrange(done as int, hi as int) =~= bs.subrange(
                done as int,
                hi as int,
            ));
            lemma_sum_u8s_bounds(rs.subrange(0, done as int));
            lemma_sum_u8s_bounds(rs.subrange(done as int, hi as int));
            lemma_sum_u8s_bounds(gs.subrange(0, done as int));
            lemma_sum_u8s_bounds(gs.subrange(done as int, hi as int));
            lemma_sum_u8s_bounds(bs.subrange(0, done as int));
            lemma_sum_u8s_bounds(bs.subrange(done as int, hi as int));
        }
        sr = sr + pr;
        sg = sg + pg;
        sb = sb + pb;
        done = hi;
        k = k + 1;
    }
    proof {
        assert(rs.subrange(0, count as int) =~= rs);
        assert(gs.subrange(0, count as int) =~= gs);
        assert(bs.subrange(0, count as int) =~= bs);
    }
    (sr, sg, sb)
}

/// The arithmetic mean color computed by partitioning the grid among
/// `workers` ranges and combining the partial sums. The result equals the
/// sequential `average_color` for every grid and every worker count.
pub fn average_color_partitioned(grid: &PixelGrid, workers: usize) -> (r: String)
    requires
        grid.wf(),
        grid.pixels@.len() > 0,
        workers >= 1,
    ensures
        r@ == average_color_spec(grid.pixels@),
{
    let count = grid.pixels.len();
    let (sr, sg, sb) = partitioned_sums(grid, workers);
    proof {
        lemma_sum_u8s_bounds(reds(grid.pixels@));
        lemma_sum_u8s_bounds(greens(grid.pixels@));
        lemma_sum_u8s_bounds(blues(grid.pixels@));
    }
    color_from_sums(sr, sg, sb, count as u64)
}

} // verus!
