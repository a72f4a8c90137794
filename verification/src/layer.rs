//! Tile layers: a 2D grid of optional tile references with per-cell flip
//! flags, stored row-major.

use vstd::prelude::*;

verus! {

/// One occupied cell of a tile layer: which tile of the tileset it shows and
/// how the tile is flipped when drawn. Empty cells are simply absent.
#[derive(Clone, Copy, PartialEq, Eq, Structural, Debug)]
pub struct TileLayerCell {
    pub tile_id: u32,
    pub flip_horizontal: bool,
    pub flip_vertical: bool,
}

/// Why a tile layer is rejected at load time.
#[derive(Clone, Copy, PartialEq, Eq, Structural, Debug)]
pub enum LayerError {
    /// The cell list's length does not equal `width * height`.
    SizeMismatch,
    /// An occupied cell's tile id resolves past the sheet texture's edge.
    TileIdOutOfRange,
    /// The layer's pixel dimensions overflow the renderer's coordinate
    /// range.
    SceneTooLarge,
}

/// A 2D grid of optional tile references with explicit dimensions. The cell
/// at `(x, y)` sits at index `y * width + x` of the row-major cell list.
#[derive(Clone, Debug)]
pub struct TileLayer {
    pub width: u32,
    pub height: u32,
    pub cells: Vec<Option<TileLayerCell>>,
}

impl TileLayer {
    /// Well-formedness: the cell list covers the declared grid exactly.
    pub open spec fn wf(self) -> bool {
        self.cells@.len() == self.width * self.height
    }

    /// The cell at column `x`, row `y`.
    pub open spec fn cell_at(self, x: int, y: int) -> Option<TileLayerCell>
        recommends
            self.wf(),
            0 <= x < self.width,
            0 <= y < self.height,
    {
        self.cells@[y * self.width + x]
    }

    /// Builds a layer from explicit dimensions and a row-major cell list,
    /// rejecting a list whose length does not match the dimensions.
    pub fn new(width: u32, height: u32, cells: Vec<Option<TileLayerCell>>) -> (r: Result<
        TileLayer,
        LayerError,
    >)
        ensures
            match r {
                Ok(layer) => layer.width == width && layer.height == height && layer.cells@
                    == cells@ && layer.wf(),
                Err(e) => e == LayerError::SizeMismatch && cells@.len() != width * height,
            },
    {
        proof {
            assert((width as int) * (height as int) <= (u32::MAX as int) * (u32::MAX as int))
                by (nonlinear_arith)
                requires
                    0 <= width <= u32::MAX,
                    0 <= height <= u32::MAX,
            ;
        }
        let expected: u64 = width as u64 * height as u64;
        if cells.len() as u64 == expected {
            Ok(TileLayer { width, height, cells })
        } else {
            Err(LayerError::SizeMismatch)
        }
    }

    /// Reads the cell at `(x, y)`.
    pub fn get_cell(&self, x: u32, y: u32) -> (c: Option<TileLayerCell>)
        requires
            self.wf(),
            x < self.width,
            y < self.height,
        ensures
            c == self.cell_at(x as int, y as int),
    {
        proof {
            assert((y as int) * (self.width as int) + (x as int) < (self.width as int) * (
            self.height as int)) by (nonlinear_arith)
                requires
                    x < self.width,
                    y < self.height,
            ;
        }
        let n: usize = self.cells.len();
        let idx: usize = y as usize * self.width as usize + x as usize;
        self.cells[idx]
    }
}

} // verus!
