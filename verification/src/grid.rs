//! Geometry of the tile grid: how many tiles a zoom level has, the order in
//! which they are visited, and where each one lands in the mosaic.

use vstd::prelude::*;
use vstd::arithmetic::power2::{pow2, lemma2_to64, lemma_pow2_adds, lemma_pow2_pos,
    lemma_pow2_strictly_increases, lemma_pow2_unfold};
use vstd::arithmetic::div_mod::{lemma_fundamental_div_mod, lemma_fundamental_div_mod_converse};

verus! {

/// Side of one square tile, in pixels.
pub const TILE_SIZE: u32 = 256;

/// Largest zoom level whose mosaic still has `u32` pixel coordinates.
pub const MAX_ZOOM: u32 = 22;

/// Number of tile columns at a zoom level.
pub open spec fn columns(zoom: nat) -> nat {
    2 * pow2(zoom)
}

/// Number of tile rows at a zoom level.
pub open spec fn rows(zoom: nat) -> nat {
    pow2(zoom)
}

/// Number of tiles in the whole grid.
pub open spec fn tile_total(zoom: nat) -> nat {
    columns(zoom) * rows(zoom)
}

/// Width of the mosaic in pixels.
pub open spec fn pixel_width(zoom: nat) -> nat {
    columns(zoom) * 256
}

/// Height of the mosaic in pixels.
pub open spec fn pixel_height(zoom: nat) -> nat {
    rows(zoom) * 256
}

/// Number of bytes of an RGB mosaic, three per pixel.
pub open spec fn mosaic_bytes(zoom: nat) -> nat {
    3 * pixel_width(zoom) * pixel_height(zoom)
}

/// A zoom level is supported when the pixel coordinates fit in `u32` and the
/// mosaic fits in one allocation on this machine.
pub open spec fn zoom_supported(zoom: nat) -> bool {
    zoom <= MAX_ZOOM && mosaic_bytes(zoom) <= isize::MAX
}

/// Up to `MAX_ZOOM` the number of rows is at most `2^22`.
pub proof fn lemma_rows_bounded(zoom: nat)
    requires
        zoom <= MAX_ZOOM,
    ensures
        1 <= rows(zoom) <= 0x40_0000,
        2 <= columns(zoom) <= 0x80_0000,
        pixel_width(zoom) <= 0x8000_0000,
        pixel_height(zoom) <= 0x4000_0000,
        2 <= tile_total(zoom) <= 0x2000_0000_0000,
{
    lemma2_to64();
    lemma_pow2_pos(zoom);
    if zoom < 22 {
        lemma_pow2_strictly_increases(zoom, 22);
    }
    assert(2 <= columns(zoom) * rows(zoom) <= 0x80_0000 * 0x40_0000) by (nonlinear_arith)
        requires
            2 <= columns(zoom) <= 0x80_0000,
            1 <= rows(zoom) <= 0x40_0000,
    ;
}

/// The grid of zoom `z` has `2^(2z+1)` tiles.
pub proof fn lemma_tile_total_is_power(zoom: nat)
    ensures
        columns(zoom) == 2 * pow2(zoom),
        rows(zoom) == pow2(zoom),
        tile_total(zoom) == pow2(2 * zoom + 1),
{
    lemma_pow2_adds(zoom, zoom);
    lemma_pow2_unfold(2 * zoom + 1);
    assert((2 * pow2(zoom)) * pow2(zoom) == 2 * (pow2(zoom) * pow2(zoom))) by (nonlinear_arith);
}

/// The mosaic of zoom `z` measures `2·2^z·256` by `2^z·256` pixels.
pub proof fn lemma_pixel_dimensions(zoom: nat)
    ensures
        pixel_width(zoom) == 2 * pow2(zoom) * 256,
        pixel_height(zoom) == pow2(zoom) * 256,
        pixel_width(zoom) == columns(zoom) * TILE_SIZE,
        pixel_height(zoom) == rows(zoom) * TILE_SIZE,
{
}

/// Computes `2^zoom`.
pub fn grid_height(zoom: u32) -> (h: u32)
    requires
        zoom <= MAX_ZOOM,
    ensures
        h == rows(zoom as nat),
{
    let mut h: u32 = 1;
    let mut k: u32 = 0;
    proof {
        lemma2_to64();
    }
    while k < zoom
        invariant
            k <= zoom <= MAX_ZOOM,
            h == pow2(k as nat),
        decreases zoom - k,
    {
        proof {
            lemma_pow2_unfold((k + 1) as nat);
            lemma_rows_bounded((k + 1) as nat);
        }
        h = h * 2;
        k = k + 1;
    }
    h
}

/// Computes `2·2^zoom`.
pub fn grid_width(zoom: u32) -> (w: u32)
    requires
        zoom <= MAX_ZOOM,
    ensures
        w == columns(zoom as nat),
{
    let h: u32 = grid_height(zoom);
    proof {
        lemma_rows_bounded(zoom as nat);
    }
    h * 2
}

/// Number of tiles a build at this zoom fetches.
pub fn tile_count(zoom: u32) -> (n: u64)
    requires
        zoom <= MAX_ZOOM,
    ensures
        n == tile_total(zoom as nat),
        n == pow2(2 * (zoom as nat) + 1),
{
    let w: u32 = grid_width(zoom);
    let h: u32 = grid_height(zoom);
    proof {
        lemma_rows_bounded(zoom as nat);
        lemma_tile_total_is_power(zoom as nat);
    }
    (w as u64) * (h as u64)
}

/// Pixel dimensions `(width, height)` of the mosaic.
pub fn mosaic_dimensions(zoom: u32) -> (d: (u32, u32))
    requires
        zoom <= MAX_ZOOM,
    ensures
        d.0 == pixel_width(zoom as nat),
        d.1 == pixel_height(zoom as nat),
        d.0 == 2 * pow2(zoom as nat) * 256,
        d.1 == pow2(zoom as nat) * 256,
{
    let w: u32 = grid_width(zoom);
    let h: u32 = grid_height(zoom);
    proof {
        lemma_rows_bounded(zoom as nat);
    }
    (w * TILE_SIZE, h * TILE_SIZE)
}

/// Tells whether a mosaic at this zoom can be built on this machine.
pub fn supports_zoom(zoom: u32) -> (ok: bool)
    ensures
        ok == zoom_supported(zoom as nat),
{
    if zoom > MAX_ZOOM {
        return false;
    }
    let (w, h) = mosaic_dimensions(zoom);
    proof {
        lemma_rows_bounded(zoom as nat);
        assert(3 * (w as int) * (h as int) <= 3 * 0x8000_0000 * 0x4000_0000) by (nonlinear_arith)
            requires
                0 <= w <= 0x8000_0000,
                0 <= h <= 0x4000_0000,
        ;
    }
    let bytes: u64 = 3 * (w as u64) * (h as u64);
    bytes <= isize::MAX as u64
}

/// Position of a tile in the grid: column `x`, row `y`.
#[derive(Clone, Copy, Debug, PartialEq, Eq, Structural)]
pub struct TileCoordinate {
    pub x: u32,
    pub y: u32,
}

impl TileCoordinate {
    /// The coordinate lies inside the grid of the zoom level.
    pub open spec fn in_grid(self, zoom: nat) -> bool {
        self.x < columns(zoom) && self.y < rows(zoom)
    }

    /// Position in visiting order: columns left to right, each column top to
    /// bottom.
    pub open spec fn index(self, zoom: nat) -> nat {
        (self.x * rows(zoom) + self.y) as nat
    }

    /// The coordinate visited at position `n`.
    pub open spec fn at(zoom: nat, n: nat) -> TileCoordinate {
        TileCoordinate { x: (n / rows(zoom)) as u32, y: (n % rows(zoom)) as u32 }
    }

    /// `at` and `index` are inverse to each other on the grid.
    pub proof fn lemma_at_index(self, zoom: nat)
        requires
            zoom <= MAX_ZOOM,
            self.in_grid(zoom),
        ensures
            self.index(zoom) < tile_total(zoom),
            Self::at(zoom, self.index(zoom)) == self,
    {
        lemma_rows_bounded(zoom);
        let r = rows(zoom) as int;
        let n = self.index(zoom) as int;
        lemma_fundamental_div_mod_converse(n, r, self.x as int, self.y as int);
        assert(self.x * r + self.y < columns(zoom) * r) by (nonlinear_arith)
            requires
                0 <= self.x < columns(zoom),
                0 <= self.y < r,
        ;
    }

    /// Every position below the tile total names a coordinate of the grid.
    pub proof fn lemma_index_at(zoom: nat, n: nat)
        requires
            zoom <= MAX_ZOOM,
            n < tile_total(zoom),
        ensures
            Self::at(zoom, n).in_grid(zoom),
            Self::at(zoom, n).index(zoom) == n,
    {
        lemma_rows_bounded(zoom);
        let r = rows(zoom) as int;
        lemma_fundamental_div_mod(n as int, r);
        let q = (n as int) / r;
        assert(0 <= q < columns(zoom)) by (nonlinear_arith)
            requires
                r > 0,
                0 <= n < columns(zoom) * r,
                n == r * q + (n as int) % r,
                0 <= (n as int) % r < r,
        ;
        assert(r * q == q * r) by (nonlinear_arith);
    }

    /// Visiting starts in the top-left corner.
    pub proof fn lemma_at_zero(zoom: nat)
        requires
            zoom <= MAX_ZOOM,
        ensures
            Self::at(zoom, 0) == (TileCoordinate { x: 0, y: 0 }),
    {
        lemma_rows_bounded(zoom);
        Self::lemma_index_at(zoom, 0);
    }

    /// The first coordinate visited.
    pub fn first() -> (c: TileCoordinate)
        ensures
            c == (TileCoordinate { x: 0, y: 0 }),
            forall|zoom: nat| c.index(zoom) == 0,
            forall|zoom: nat| c.in_grid(zoom),
    {
        assert forall|zoom: nat|
            (TileCoordinate { x: 0, y: 0 }).index(zoom) == 0 && (TileCoordinate {
                x: 0,
                y: 0,
            }).in_grid(zoom) by {
            assert(0 * rows(zoom) == 0) by (nonlinear_arith);
            lemma_pow2_pos(zoom);
        }
        TileCoordinate { x: 0, y: 0 }
    }

    /// The coordinate visited after this one, or `None` after the last.
    pub fn successor(self, zoom: u32) -> (next: Option<TileCoordinate>)
        requires
            zoom <= MAX_ZOOM,
            self.in_grid(zoom as nat),
        ensures
            next is Some <==> self.index(zoom as nat) + 1 < tile_total(zoom as nat),
            next is Some ==> next->0 == Self::at(zoom as nat, self.index(zoom as nat) + 1)
                && next->0.in_grid(zoom as nat)
                && next->0.index(zoom as nat) == self.index(zoom as nat) + 1,
            next is Some ==> next->0 == (if self.y + 1 < rows(zoom as nat) {
                TileCoordinate { x: self.x, y: (self.y + 1) as u32 }
            } else {
                TileCoordinate { x: (self.x + 1) as u32, y: 0 }
            }),
    {
        let h: u32 = grid_height(zoom);
        let w: u32 = grid_width(zoom);
        proof {
            lemma_rows_bounded(zoom as nat);
            self.lemma_at_index(zoom as nat);
        }
        let ghost r = h as int;
        let ghost n = self.index(zoom as nat) as int;
        if self.y + 1 < h {
            let c = TileCoordinate { x: self.x, y: self.y + 1 };
            proof {
                c.lemma_at_index(zoom as nat);
            }
            Some(c)
        } else if self.x + 1 < w {
            let c = TileCoordinate { x: self.x + 1, y: 0 };
            proof {
                assert((self.x + 1) * r + 0 == self.x * r + self.y + 1) by (nonlinear_arith)
                    requires
                        self.y + 1 == r,
                ;
                c.lemma_at_index(zoom as nat);
            }
            Some(c)
        } else {
            proof {
                assert(self.x * r + self.y + 1 == (2 * r) * r) by (nonlinear_arith)
                    requires
                        self.y + 1 == r,
                        self.x + 1 == 2 * r,
                ;
            }
            None
        }
    }

    /// Pixel offset of the tile's top-left corner in the mosaic.
    pub fn pixel_offset(self, zoom: u32) -> (offset: (u32, u32))
        requires
            zoom <= MAX_ZOOM,
            self.in_grid(zoom as nat),
        ensures
            offset.0 == self.x * 256,
            offset.1 == self.y * 256,
            offset.0 + 256 <= pixel_width(zoom as nat),
            offset.1 + 256 <= pixel_height(zoom as nat),
    {
        proof {
            lemma_rows_bounded(zoom as nat);
        }
        (self.x * TILE_SIZE, self.y * TILE_SIZE)
    }
}

} // verus!
