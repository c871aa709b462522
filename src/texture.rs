//! Texture and attachment sizes (mip levels, bloom chain) and generated
//! texture contents.
use vstd::prelude::*;
use crate::renderer::Extent;
use vstd::arithmetic::power2::pow2;

verus! {

/// `floor(log2(n))` for `n >= 1`.
pub open spec fn floor_log2(n: nat) -> nat
    decreases n,
{
    if n <= 1 {
        0
    } else {
        1 + floor_log2(n / 2)
    }
}

/// Number of mip levels of an uploaded image: one without mipmaps, else one
/// less than the number of halvings of its longer side, and never fewer
/// than one.
pub open spec fn mip_level_count_spec(width: u32, height: u32, generate_mipmaps: bool) -> int {
    let halvings = floor_log2(if width >= height { width as nat } else { height as nat });
    if generate_mipmaps && halvings >= 2 {
        halvings - 1
    } else {
        1
    }
}

/// The mip level count for an image of `width` x `height`.
pub fn mip_level_count(width: u32, height: u32, generate_mipmaps: bool) -> (r: u32)
    ensures
        r == mip_level_count_spec(width, height, generate_mipmaps),
{
    if !generate_mipmaps {
        return 1;
    }
    let longest = if width >= height {
        width
    } else {
        height
    };
    if longest < 2 {
        return 1;
    }
    let mut n = longest;
    let mut halvings: u32 = 0;
    proof {
        vstd::arithmetic::power2::lemma2_to64();
    }
    while n > 1
        invariant
            1 <= n <= longest,
            halvings + floor_log2(n as nat) == floor_log2(longest as nat),
            halvings <= 32,
            n as nat * pow2(halvings as nat) <= longest,
        decreases n,
    {
        proof {
            vstd::arithmetic::power2::lemma_pow2_unfold((halvings + 1) as nat);
            assert(n as nat / 2 * 2 <= n);
            assert((n as nat / 2) * pow2((halvings + 1) as nat) <= longest) by (nonlinear_arith)
                requires
                    pow2((halvings + 1) as nat) == 2 * pow2(halvings as nat),
                    n as nat / 2 * 2 <= n,
                    n as nat * pow2(halvings as nat) <= longest,
            ;
            if halvings == 32 {
                vstd::arithmetic::power2::lemma2_to64();
                assert(n * pow2(32) > u32::MAX) by (nonlinear_arith)
                    requires n >= 2, pow2(32) == 0x1_0000_0000;
            }
        }
        n = n / 2;
        halvings = halvings + 1;
    }
    if halvings >= 2 {
        halvings - 1
    } else {
        1
    }
}

/// Extent of bloom level `level`: the render extent halved `level` times,
/// never below one pixel per side.
pub open spec fn bloom_level_extent(base: Extent, level: nat) -> Extent
    decreases level,
{
    if level == 0 {
        base
    } else {
        let above = bloom_level_extent(base, (level - 1) as nat);
        Extent {
            width: if above.width / 2 < 1 { 1 } else { above.width / 2 },
            height: if above.height / 2 < 1 { 1 } else { above.height / 2 },
        }
    }
}

/// The extents of a bloom chain of `levels` levels, sized from the render
/// extent; recreated with the other attachments.
pub fn bloom_mip_extents(base: Extent, levels: usize) -> (r: Vec<Extent>)
    ensures
        r@.len() == levels,
        forall|i: int| 0 <= i < levels ==> #[trigger] r@[i] == bloom_level_extent(base, i as nat),
{
    let mut r: Vec<Extent> = Vec::new();
    let mut current = base;
    let mut i: usize = 0;
    while i < levels
        invariant
            i <= levels,
            r@.len() == i,
            current == bloom_level_extent(base, i as nat),
            forall|j: int| 0 <= j < i ==> #[trigger] r@[j] == bloom_level_extent(base, j as nat),
        decreases levels - i,
    {
        r.push(current);
        let w = current.width / 2;
        let h = current.height / 2;
        current = Extent { width: if w < 1 { 1 } else { w }, height: if h < 1 { 1 } else { h } };
        i += 1;
    }
    r
}

/// Grey level of a checkerboard pixel: squares of `cell` pixels alternate
/// between 100 and 150, starting with 100 at the origin.
pub open spec fn checker_level(x: int, y: int, cell: int) -> u8 {
    if (x / cell + y / cell) % 2 == 0 {
        100
    } else {
        150
    }
}

/// RGBA bytes, row by row, of a `width` x `height` checkerboard with squares
/// of `cell` pixels; all four channels of a pixel carry its grey level.
pub fn checkerboard_rgba(width: u32, height: u32, cell: u32) -> (r: Vec<u8>)
    requires
        cell > 0,
        width * height * 4 <= usize::MAX,
    ensures
        r@.len() == width * height * 4,
        forall|i: int|
            0 <= i < r@.len() ==> #[trigger] r@[i] == checker_level(
                (i / 4) % width as int,
                (i / 4) / width as int,
                cell as int,
            ),
{
    let pixels = width as usize * height as usize;
    let mut r: Vec<u8> = Vec::new();
    let mut p: usize = 0;
    while p < pixels
        invariant
            width > 0 || pixels == 0,
            pixels == width * height,
            pixels * 4 <= usize::MAX,
            cell > 0,
            p <= pixels,
            r@.len() == p * 4,
            forall|i: int|
                0 <= i < r@.len() ==> #[trigger] r@[i] == checker_level(
                    (i / 4) % width as int,
                    (i / 4) / width as int,
                    cell as int,
                ),
        decreases pixels - p,
    {
        let x = p % width as usize;
        let y = p / width as usize;
        let column_parity = (x / cell as usize) % 2;
        let row_parity = (y / cell as usize) % 2;
        let level: u8 = if column_parity == row_parity {
            100
        } else {
            150
        };
        proof {
            assert(level == checker_level(x as int, y as int, cell as int));
        }
        let ghost start = r@.len() as int;
        let mut k: usize = 0;
        while k < 4
            invariant
                k <= 4,
                start == p * 4,
                r@.len() == start + k,
                forall|i: int|
                    0 <= i < start ==> #[trigger] r@[i] == checker_level(
                        (i / 4) % width as int,
                        (i / 4) / width as int,
                        cell as int,
                    ),
                forall|i: int| start <= i < r@.len() ==> #[trigger] r@[i] == level,
            decreases 4 - k,
        {
            r.push(level);
            k += 1;
        }
        proof {
            assert forall|i: int| start <= i < r@.len() implies #[trigger] r@[i] == checker_level(
                (i / 4) % width as int,
                (i / 4) / width as int,
                cell as int,
            ) by {
                assert(i / 4 == p);
                assert(r@[i] == level);
            }
        }
        p += 1;
    }
    r
}

} // verus!
