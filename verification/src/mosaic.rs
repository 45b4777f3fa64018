//! The mosaic: one large raster into which the tiles of a zoom level are
//! copied, each into its own cell, in visiting order.

use vstd::prelude::*;
use crate::grid::{pixel_height, pixel_width, mosaic_bytes, tile_total, zoom_supported,
    lemma_rows_bounded, mosaic_dimensions, TileCoordinate, MAX_ZOOM, TILE_SIZE};
use crate::raster::{Raster, RasterView};

verus! {

/// The cell a tile fills: a square of `TILE_SIZE` pixels holding the tile's
/// top-left part, and zero where the tile is smaller than the cell.
pub open spec fn cell_of(tile: RasterView) -> RasterView {
    RasterView::blank(256, 256).overlaid(tile, 0, 0)
}

/// The mosaic after the tile visited at position `n` has been copied in.
pub open spec fn placed(mosaic: RasterView, zoom: nat, n: nat, tile: RasterView) -> RasterView {
    let at = TileCoordinate::at(zoom, n);
    mosaic.overlaid(cell_of(tile), at.x * 256, at.y * 256)
}

/// The mosaic made from the first tiles of a zoom level, in visiting order,
/// on a background of zeros.
pub open spec fn assembled(zoom: nat, tiles: Seq<RasterView>) -> RasterView
    decreases tiles.len(),
{
    if tiles.len() == 0 {
        RasterView::blank(pixel_width(zoom), pixel_height(zoom))
    } else {
        placed(
            assembled(zoom, tiles.drop_last()),
            zoom,
            (tiles.len() - 1) as nat,
            tiles.last(),
        )
    }
}

/// A cell is a well-formed square; it shows the tile where the tile has
/// pixels and zero elsewhere.
pub proof fn lemma_cell_sample(tile: RasterView, i: int, j: int, c: int)
    requires
        0 <= i < 256,
        0 <= j < 256,
        0 <= c < 3,
    ensures
        cell_of(tile).wf(),
        cell_of(tile).width == 256,
        cell_of(tile).height == 256,
        cell_of(tile).sample(i, j, c) == (if i < tile.width && j < tile.height {
            tile.sample(i, j, c)
        } else {
            0
        }),
{
    let blank = RasterView::blank(256, 256);
    RasterView::lemma_blank_sample(256, 256, i, j, c);
    blank.lemma_overlaid_sample(tile, 0, 0, i, j, c);
}

/// A tile that is exactly one cell large is its own cell.
pub proof fn lemma_cell_of_full_tile(tile: RasterView)
    requires
        tile.wf(),
        tile.width == 256,
        tile.height == 256,
    ensures
        cell_of(tile) == tile,
{
    lemma_cell_sample(tile, 0, 0, 0);
    assert forall|i: int, j: int, c: int| cell_of(tile).contains(i, j) && 0 <= c < 3 implies cell_of(
        tile,
    ).sample(i, j, c) == tile.sample(i, j, c) by {
        lemma_cell_sample(tile, i, j, c);
    }
    cell_of(tile).lemma_equal_by_samples(tile);
}

/// Whatever tiles have been copied in, the mosaic of zoom `z` measures
/// `2·2^z·256` by `2^z·256` pixels.
pub proof fn lemma_assembled_dimensions(zoom: nat, tiles: Seq<RasterView>)
    ensures
        assembled(zoom, tiles).wf(),
        assembled(zoom, tiles).width == pixel_width(zoom),
        assembled(zoom, tiles).height == pixel_height(zoom),
        assembled(zoom, tiles).data.len() == mosaic_bytes(zoom),
    decreases tiles.len(),
{
    if tiles.len() > 0 {
        lemma_assembled_dimensions(zoom, tiles.drop_last());
    }
}

/// Every cell of the mosaic shows its own tile and nothing else: the cell of
/// the tile visited at position `n` holds that tile's cell once the tile has
/// been copied in, and zeros before.
pub proof fn lemma_assembled_block(
    zoom: nat,
    tiles: Seq<RasterView>,
    n: nat,
    i: int,
    j: int,
    c: int,
)
    requires
        zoom <= MAX_ZOOM,
        tiles.len() <= tile_total(zoom),
        n < tile_total(zoom),
        0 <= i < 256,
        0 <= j < 256,
        0 <= c < 3,
    ensures
        assembled(zoom, tiles).contains(
            TileCoordinate::at(zoom, n).x * 256 + i,
            TileCoordinate::at(zoom, n).y * 256 + j,
        ),
        assembled(zoom, tiles).sample(
            TileCoordinate::at(zoom, n).x * 256 + i,
            TileCoordinate::at(zoom, n).y * 256 + j,
            c,
        ) == (if n < tiles.len() {
            cell_of(tiles[n as int]).sample(i, j, c)
        } else {
            0
        }),
    decreases tiles.len(),
{
    let here = TileCoordinate::at(zoom, n);
    let px = here.x * 256 + i;
    let py = here.y * 256 + j;
    TileCoordinate::lemma_index_at(zoom, n);
    lemma_assembled_dimensions(zoom, tiles);
    if tiles.len() == 0 {
        RasterView::lemma_blank_sample(pixel_width(zoom), pixel_height(zoom), px, py, c);
    } else {
        let m = (tiles.len() - 1) as nat;
        let there = TileCoordinate::at(zoom, m);
        let before = assembled(zoom, tiles.drop_last());
        let cell = cell_of(tiles.last());
        TileCoordinate::lemma_index_at(zoom, m);
        lemma_assembled_dimensions(zoom, tiles.drop_last());
        lemma_assembled_block(zoom, tiles.drop_last(), n, i, j, c);
        lemma_cell_sample(tiles.last(), i, j, c);
        before.lemma_overlaid_sample(cell, there.x * 256, there.y * 256, px, py, c);
        if n == m {
        } else {
            assert(here != there);
        }
    }
}

/// Copying is lossless: where the tile visited at position `n` is exactly one
/// cell large, the block of the mosaic at the tile's pixel offset holds the
/// tile's own samples.
pub proof fn lemma_block_is_tile(
    zoom: nat,
    tiles: Seq<RasterView>,
    n: nat,
    i: int,
    j: int,
    c: int,
)
    requires
        zoom <= MAX_ZOOM,
        tiles.len() <= tile_total(zoom),
        n < tiles.len(),
        tiles[n as int].wf(),
        tiles[n as int].width == 256,
        tiles[n as int].height == 256,
        0 <= i < 256,
        0 <= j < 256,
        0 <= c < 3,
    ensures
        assembled(zoom, tiles).sample(
            TileCoordinate::at(zoom, n).x * 256 + i,
            TileCoordinate::at(zoom, n).y * 256 + j,
            c,
        ) == tiles[n as int].sample(i, j, c),
{
    lemma_assembled_block(zoom, tiles, n, i, j, c);
    lemma_cell_of_full_tile(tiles[n as int]);
}

/// A mosaic under construction: the raster, and the position of the next
/// cell to fill.
pub struct Mosaic {
    zoom: u32,
    raster: Raster,
    cursor: Option<TileCoordinate>,
    tiles: Ghost<Seq<RasterView>>,
}

impl Mosaic {
    /// Zoom level of the mosaic.
    pub closed spec fn zoom_level(&self) -> nat {
        self.zoom as nat
    }

    /// The tiles copied in so far, in visiting order.
    pub closed spec fn tiles(&self) -> Seq<RasterView> {
        self.tiles@
    }

    /// The pixels of the mosaic as it stands.
    pub closed spec fn raster(&self) -> RasterView {
        self.raster@
    }

    /// The raster is what copying the tiles so far onto the background
    /// gives, and the cursor stands on the first empty cell.
    pub closed spec fn wf(&self) -> bool {
        &&& zoom_supported(self.zoom as nat)
        &&& self.raster.wf()
        &&& self.tiles@.len() <= tile_total(self.zoom as nat)
        &&& self.raster@ == assembled(self.zoom as nat, self.tiles@)
        &&& self.cursor == (if self.tiles@.len() < tile_total(self.zoom as nat) {
            Some(TileCoordinate::at(self.zoom as nat, self.tiles@.len()))
        } else {
            None
        })
    }

    /// Every cell has been filled.
    pub open spec fn is_complete(&self) -> bool {
        self.tiles().len() == tile_total(self.zoom_level())
    }

    /// What the invariant says of a mosaic, in terms a caller can use.
    pub proof fn lemma_wf(&self)
        requires
            self.wf(),
        ensures
            zoom_supported(self.zoom_level()),
            self.tiles().len() <= tile_total(self.zoom_level()),
            self.raster() == assembled(self.zoom_level(), self.tiles()),
            self.raster().wf(),
            self.raster().width == pixel_width(self.zoom_level()),
            self.raster().height == pixel_height(self.zoom_level()),
    {
        lemma_assembled_dimensions(self.zoom as nat, self.tiles@);
    }

    /// An empty mosaic: the background, with no tile copied in.
    pub fn new(zoom: u32) -> (m: Mosaic)
        requires
            zoom_supported(zoom as nat),
        ensures
            m.wf(),
            m.zoom_level() == zoom,
            m.tiles() == Seq::<RasterView>::empty(),
            !m.is_complete(),
            m.raster() == RasterView::blank(pixel_width(zoom as nat), pixel_height(zoom as nat)),
    {
        let (width, height) = mosaic_dimensions(zoom);
        let raster = Raster::blank(width, height);
        proof {
            lemma_rows_bounded(zoom as nat);
            TileCoordinate::lemma_at_zero(zoom as nat);
        }
        Mosaic {
            zoom,
            raster,
            cursor: Some(TileCoordinate::first()),
            tiles: Ghost(Seq::empty()),
        }
    }

    /// Zoom level of the mosaic.
    pub fn zoom(&self) -> (z: u32)
        ensures
            z == self.zoom_level(),
    {
        self.zoom
    }

    /// The cell the next tile goes to, or `None` once all are filled.
    pub fn cursor(&self) -> (at: Option<TileCoordinate>)
        requires
            self.wf(),
        ensures
            at is Some <==> !self.is_complete(),
            at is Some ==> at->0 == TileCoordinate::at(self.zoom_level(), self.tiles().len())
                && at->0.in_grid(self.zoom_level()),
    {
        proof {
            if self.tiles@.len() < tile_total(self.zoom as nat) {
                TileCoordinate::lemma_index_at(self.zoom as nat, self.tiles@.len());
            }
        }
        self.cursor
    }

    /// Copies a tile into the cell under the cursor, overwriting exactly
    /// that cell, and moves the cursor on.
    pub fn place(&mut self, tile: &Raster)
        requires
            old(self).wf(),
            !old(self).is_complete(),
            tile.wf(),
        ensures
            final(self).wf(),
            final(self).zoom_level() == old(self).zoom_level(),
            final(self).tiles() == old(self).tiles().push(tile@),
            final(self).raster() == placed(
                old(self).raster(),
                old(self).zoom_level(),
                old(self).tiles().len(),
                tile@,
            ),
    {
        let ghost before = self.tiles@;
        let ghost zoom = self.zoom as nat;
        proof {
            TileCoordinate::lemma_index_at(zoom, before.len());
        }
        let at = self.cursor.unwrap();
        let mut cell = Raster::blank(TILE_SIZE, TILE_SIZE);
        cell.overlay(tile, 0, 0);
        let (x, y) = at.pixel_offset(self.zoom);
        self.raster.overlay(&cell, x, y);
        self.cursor = at.successor(self.zoom);
        self.tiles = Ghost(before.push(tile@));
        proof {
            assert(before.push(tile@).drop_last() =~= before);
            assert(before.push(tile@).last() == tile@);
        }
    }

    /// Gives up the mosaic for its raster.
    pub fn into_raster(self) -> (r: Raster)
        requires
            self.wf(),
        ensures
            r.wf(),
            r@ == self.raster(),
            r@ == assembled(self.zoom_level(), self.tiles()),
    {
        self.raster
    }

    /// The raster as it stands.
    pub fn as_raster(&self) -> (r: &Raster)
        requires
            self.wf(),
        ensures
            r.wf(),
            r@ == self.raster(),
    {
        &self.raster
    }
}

} // verus!
