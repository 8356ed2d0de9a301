use vstd::prelude::*;
use vstd::arithmetic::div_mod::lemma_fundamental_div_mod;
use vstd::arithmetic::div_mod::lemma_fundamental_div_mod_converse;

verus! {

/// Largest magnitude of a continuous coordinate, in sub-pixel units.
pub const COORD_LIMIT: i64 = 0x4000_0000;

/// Largest number of tiles along one axis.
pub const TILE_LIMIT: i64 = 0x1_0000;

/// Index of the tile that holds `pos` on an axis `pixels` units long and
/// divided into `tiles` equal tiles: `floor(pos / (pixels / tiles))`.
/// Tile 0 spans `[0, pixels / tiles)`.
pub open spec fn tile_of(pos: int, pixels: int, tiles: int) -> int {
    (pos * tiles) / pixels
}

/// An axis is usable when it holds at least one tile, and every tile is at
/// least one sub-pixel wide.
pub open spec fn axis_ok(pixels: int, tiles: int) -> bool {
    0 < tiles <= TILE_LIMIT && tiles <= pixels <= COORD_LIMIT
}

/// Maps a continuous coordinate to the index of the tile that holds it.
pub fn pixel_to_tile(translation: i64, boundary_pixels: i64, boundary_tiles: i64) -> (r: i32)
    requires
        axis_ok(boundary_pixels as int, boundary_tiles as int),
        -COORD_LIMIT <= translation <= COORD_LIMIT,
    ensures
        r as int == tile_of(translation as int, boundary_pixels as int, boundary_tiles as int),
{
    let ghost t = translation as int;
    let ghost p = boundary_pixels as int;
    let ghost k = boundary_tiles as int;
    assert(-COORD_LIMIT * TILE_LIMIT <= -COORD_LIMIT * k <= t * k <= COORD_LIMIT * k
        <= COORD_LIMIT * TILE_LIMIT) by (nonlinear_arith)
        requires
            -COORD_LIMIT <= t <= COORD_LIMIT,
            0 < k <= TILE_LIMIT,
    ;
    let n: i64 = translation * boundary_tiles;
    let q: i64;
    if n >= 0 {
        let u: u64 = (n as u64) / (boundary_pixels as u64);
        proof {
            assert(u as int == (n as int) / p);
        }
        q = u as i64;
    } else {
        let m: u64 = ((-1 - n) as u64) / (boundary_pixels as u64);
        proof {
            let mi = -1 - n as int;
            lemma_fundamental_div_mod(mi, p);
            let r = mi % p;
            assert(n as int == (-(m as int) - 1) * p + (p - 1 - r)) by (nonlinear_arith)
                requires
                    mi == p * (m as int) + r,
                    n as int == -1 - mi,
            ;
            lemma_fundamental_div_mod_converse(n as int, p, -(m as int) - 1, p - 1 - r);
        }
        q = -1 - (m as i64);
    }
    proof {
        lemma_fundamental_div_mod(n as int, p);
        let qq = (n as int) / p;
        let rr = (n as int) % p;
        assert(-COORD_LIMIT <= qq <= COORD_LIMIT) by (nonlinear_arith)
            requires
                -COORD_LIMIT * k <= n as int <= COORD_LIMIT * k,
                0 < k <= p,
                n as int == p * qq + rr,
                0 <= rr < p,
        ;
    }
    q as i32
}

} // verus!
