//! The background renderer: turns a tile layer into the exact sequence of
//! draw commands for its occupied cells, visited in row-major order. Empty
//! cells contribute nothing. Several layers are drawn back to front in their
//! declared order (painter's algorithm).

use vstd::prelude::*;
use vstd::arithmetic::div_mod::{
    lemma_fundamental_div_mod, lemma_fundamental_div_mod_converse_div,
    lemma_fundamental_div_mod_converse_mod, lemma_mod_bound,
};
use vstd::arithmetic::mul::lemma_mul_inequality;
use crate::geometry::{DrawCommand, PixelRect};
use crate::layer::{LayerError, TileLayer, TileLayerCell};
use crate::sheet::{
    lemma_resolve_in_bounds, resolve, sheet_ok, spec_rows, spec_tiles_per_row, TilesetGeometry,
};

verus! {

/// The draw command for the occupied cell at row-major index `i` of the
/// layer's grid: destination at the cell's grid position scaled by the tile
/// size, source resolved from the tile id, flips taken from the cell.
pub open spec fn spec_cell_command(
    i: int,
    cell: TileLayerCell,
    layer: TileLayer,
    g: TilesetGeometry,
    texture_width: u32,
) -> DrawCommand
    recommends
        layer.width >= 1,
        spec_tiles_per_row(g, texture_width) >= 1,
{
    let cols = spec_tiles_per_row(g, texture_width);
    DrawCommand {
        dest_x: (((i % (layer.width as int)) * g.tile_width) as u32),
        dest_y: (((i / (layer.width as int)) * g.tile_height) as u32),
        dest_w: g.tile_width,
        dest_h: g.tile_height,
        source: PixelRect {
            x: (((cell.tile_id as int % cols) * g.tile_width) as u32),
            y: (((cell.tile_id as int / cols) * g.tile_height) as u32),
            w: g.tile_width,
            h: g.tile_height,
        },
        flip_h: cell.flip_horizontal,
        flip_v: cell.flip_vertical,
    }
}

/// The draw commands for the first `n` cells of the layer's row-major cell
/// list: one command per occupied cell, in visiting order; empty cells are
/// skipped.
pub open spec fn spec_render_prefix(
    layer: TileLayer,
    g: TilesetGeometry,
    texture_width: u32,
    n: int,
) -> Seq<DrawCommand>
    decreases n,
{
    if n <= 0 {
        Seq::empty()
    } else {
        let rest = spec_render_prefix(layer, g, texture_width, n - 1);
        match layer.cells@[n - 1] {
            Option::Some(c) => rest.push(spec_cell_command(n - 1, c, layer, g, texture_width)),
            Option::None => rest,
        }
    }
}

/// The draw commands for the whole layer.
pub open spec fn spec_render(layer: TileLayer, g: TilesetGeometry, texture_width: u32) -> Seq<
    DrawCommand,
> {
    spec_render_prefix(layer, g, texture_width, layer.cells@.len() as int)
}

/// Every occupied cell's tile id resolves inside the sheet texture.
pub open spec fn all_tile_ids_in_range(
    layer: TileLayer,
    g: TilesetGeometry,
    texture_width: u32,
    texture_height: u32,
) -> bool {
    forall|i: int|
        0 <= i < layer.cells@.len() ==> ((#[trigger] layer.cells@[i]) matches Option::Some(c)
            ==> c.tile_id < spec_tiles_per_row(g, texture_width) * spec_rows(g, texture_height))
}

/// Everything rendering a layer against a sheet needs: a well-formed grid, a
/// validated geometry, tile ids inside the sheet, and a scene small enough
/// that destination pixel coordinates stay representable.
pub open spec fn render_inputs_ok(
    layer: TileLayer,
    g: TilesetGeometry,
    texture_width: u32,
    texture_height: u32,
) -> bool {
    &&& layer.wf()
    &&& sheet_ok(g, texture_width, texture_height)
    &&& layer.width * g.tile_width <= u32::MAX
    &&& layer.height * g.tile_height <= u32::MAX
    &&& all_tile_ids_in_range(layer, g, texture_width, texture_height)
}

/// Checks a layer against a validated sheet, failing fast at load time:
/// success establishes exactly what `render` needs.
#[verifier::loop_isolation(false)]
pub fn validate_layer(
    layer: &TileLayer,
    g: &TilesetGeometry,
    texture_width: u32,
    texture_height: u32,
) -> (r: Result<(), LayerError>)
    requires
        layer.wf(),
        sheet_ok(*g, texture_width, texture_height),
    ensures
        r is Ok <==> render_inputs_ok(*layer, *g, texture_width, texture_height),
        match r {
            Ok(_) => true,
            Err(LayerError::SceneTooLarge) => layer.width * g.tile_width > u32::MAX
                || layer.height * g.tile_height > u32::MAX,
            Err(LayerError::TileIdOutOfRange) => !all_tile_ids_in_range(
                *layer,
                *g,
                texture_width,
                texture_height,
            ),
            Err(LayerError::SizeMismatch) => false,
        },
{
    proof {
        assert((layer.width as int) * (g.tile_width as int) <= (u32::MAX as int) * (u32::MAX
            as int) && (layer.height as int) * (g.tile_height as int) <= (u32::MAX as int) * (
        u32::MAX as int)) by (nonlinear_arith)
            requires
                0 <= layer.width <= u32::MAX,
                0 <= layer.height <= u32::MAX,
                0 <= g.tile_width <= u32::MAX,
                0 <= g.tile_height <= u32::MAX,
        ;
    }
    if layer.width as u64 * g.tile_width as u64 > u32::MAX as u64 || layer.height as u64
        * g.tile_height as u64 > u32::MAX as u64 {
        return Err(LayerError::SceneTooLarge);
    }
    let cols: u32 = crate::sheet::tiles_per_row(g, texture_width);
    let rows: u32 = crate::sheet::rows_in_sheet(g, texture_height);
    proof {
        assert((cols as int) * (rows as int) <= (u32::MAX as int) * (u32::MAX as int))
            by (nonlinear_arith)
            requires
                0 <= cols <= u32::MAX,
                0 <= rows <= u32::MAX,
        ;
    }
    let limit: u64 = cols as u64 * rows as u64;
    let n: usize = layer.cells.len();
    let mut i: usize = 0;
    while i < n
        invariant
            0 <= i <= n,
            forall|j: int|
                0 <= j < i ==> ((#[trigger] layer.cells@[j]) matches Option::Some(c) ==> c.tile_id
                    < spec_tiles_per_row(*g, texture_width) * spec_rows(*g, texture_height)),
        decreases n - i,
    {
        match layer.cells[i] {
            Option::Some(cell) => {
                if cell.tile_id as u64 >= limit {
                    return Err(LayerError::TileIdOutOfRange);
                }
            },
            Option::None => {},
        }
        i = i + 1;
    }
    Ok(())
}

/// Renders one layer: the returned draw commands are exactly those of the
/// layer's occupied cells, in row-major visiting order.
#[verifier::loop_isolation(false)]
pub fn render(
    layer: &TileLayer,
    g: &TilesetGeometry,
    texture_width: u32,
    texture_height: u32,
) -> (out: Vec<DrawCommand>)
    requires
        render_inputs_ok(*layer, *g, texture_width, texture_height),
    ensures
        out@ == spec_render(*layer, *g, texture_width),
{
    let mut out: Vec<DrawCommand> = Vec::new();
    let mut y: u32 = 0;
    while y < layer.height
        invariant
            0 <= y <= layer.height,
            out@ == spec_render_prefix(
                *layer,
                *g,
                texture_width,
                (y as int) * (layer.width as int),
            ),
        decreases layer.height - y,
    {
        let mut x: u32 = 0;
        while x < layer.width
            invariant
                0 <= x <= layer.width,
                y < layer.height,
                out@ == spec_render_prefix(
                    *layer,
                    *g,
                    texture_width,
                    (y as int) * (layer.width as int) + (x as int),
                ),
            decreases layer.width - x,
        {
            let ghost idx: int = (y as int) * (layer.width as int) + (x as int);
            proof {
                assert((y as int) * (layer.width as int) + (x as int) < (layer.width as int) * (
                layer.height as int)) by (nonlinear_arith)
                    requires
                        x < layer.width,
                        y < layer.height,
                ;
                lemma_fundamental_div_mod_converse_div(idx, layer.width as int, y as int, x as int);
                lemma_fundamental_div_mod_converse_mod(idx, layer.width as int, y as int, x as int);
                assert(idx == (y as int) * (layer.width as int) + (x as int));
                assert(idx % (layer.width as int) == x as int);
                assert(idx / (layer.width as int) == y as int);
                lemma_mul_inequality(x as int + 1, layer.width as int, g.tile_width as int);
                assert((x as int + 1) * (g.tile_width as int) == (x as int) * (g.tile_width as int)
                    + g.tile_width as int) by (nonlinear_arith);
                lemma_mul_inequality(y as int + 1, layer.height as int, g.tile_height as int);
                assert((y as int + 1) * (g.tile_height as int) == (y as int) * (g.tile_height
                    as int) + g.tile_height as int) by (nonlinear_arith);
            }
            match layer.get_cell(x, y) {
                Option::Some(cell) => {
                    proof {
                        assert(layer.cells@[idx] matches Option::Some(c) && c == cell);
                        lemma_resolve_in_bounds(cell.tile_id, *g, texture_width, texture_height);
                    }
                    let src: PixelRect = resolve(cell.tile_id, g, texture_width);
                    let cmd = DrawCommand {
                        dest_x: x * g.tile_width,
                        dest_y: y * g.tile_height,
                        dest_w: g.tile_width,
                        dest_h: g.tile_height,
                        source: src,
                        flip_h: cell.flip_horizontal,
                        flip_v: cell.flip_vertical,
                    };
                    out.push(cmd);
                    proof {
                        assert(cmd == spec_cell_command(idx, cell, *layer, *g, texture_width));
                        assert(out@ == spec_render_prefix(*layer, *g, texture_width, idx + 1));
                    }
                },
                Option::None => {
                    proof {
                        assert(out@ == spec_render_prefix(*layer, *g, texture_width, idx + 1));
                    }
                },
            }
            x = x + 1;
        }
        proof {
            assert((y as int + 1) * (layer.width as int) == (y as int) * (layer.width as int)
                + layer.width as int) by (nonlinear_arith);
        }
        y = y + 1;
    }
    proof {
        assert((layer.height as int) * (layer.width as int) == (layer.width as int) * (layer.height
            as int)) by (nonlinear_arith);
    }
    out
}

/// The draw commands for a list of layers, back to front in declared order.
pub open spec fn spec_render_all(
    layers: Seq<TileLayer>,
    g: TilesetGeometry,
    texture_width: u32,
) -> Seq<DrawCommand>
    decreases layers.len(),
{
    if layers.len() == 0 {
        Seq::empty()
    } else {
        spec_render_all(layers.drop_last(), g, texture_width) + spec_render(
            layers.last(),
            g,
            texture_width,
        )
    }
}

/// Renders every layer of a map, concatenating their draw commands in
/// declared order so that later layers paint over earlier ones.
#[verifier::loop_isolation(false)]
pub fn render_layers(
    layers: &Vec<TileLayer>,
    g: &TilesetGeometry,
    texture_width: u32,
    texture_height: u32,
) -> (out: Vec<DrawCommand>)
    requires
        forall|i: int|
            0 <= i < layers@.len() ==> render_inputs_ok(
                #[trigger] layers@[i],
                *g,
                texture_width,
                texture_height,
            ),
    ensures
        out@ == spec_render_all(layers@, *g, texture_width),
{
    let mut out: Vec<DrawCommand> = Vec::new();
    let mut i: usize = 0;
    while i < layers.len()
        invariant
            0 <= i <= layers@.len(),
            out@ == spec_render_all(layers@.take(i as int), *g, texture_width),
        decreases layers@.len() - i,
    {
        let mut cmds: Vec<DrawCommand> = render(&layers[i], g, texture_width, texture_height);
        out.append(&mut cmds);
        proof {
            assert(layers@.take(i + 1).drop_last() =~= layers@.take(i as int));
            assert(layers@.take(i + 1).last() == layers@[i as int]);
        }
        i = i + 1;
    }
    proof {
        assert(layers@.take(layers@.len() as int) =~= layers@);
    }
    out
}

/// How many of the first `n` cells of a row-major cell list are occupied.
pub open spec fn spec_occupied_count(cells: Seq<Option<TileLayerCell>>, n: int) -> int
    decreases n,
{
    if n <= 0 {
        0
    } else {
        spec_occupied_count(cells, n - 1) + if cells[n - 1] is Some {
            1int
        } else {
            0int
        }
    }
}

/// Law: rendering issues exactly one draw call per occupied cell — the
/// command count equals the occupied-cell count, so empty cells contribute
/// none.
pub proof fn lemma_render_counts_occupied_cells(
    layer: TileLayer,
    g: TilesetGeometry,
    texture_width: u32,
)
    ensures
        spec_render(layer, g, texture_width).len() == spec_occupied_count(
            layer.cells@,
            layer.cells@.len() as int,
        ),
{
    lemma_prefix_counts_occupied_cells(layer, g, texture_width, layer.cells@.len() as int);
}

proof fn lemma_prefix_counts_occupied_cells(
    layer: TileLayer,
    g: TilesetGeometry,
    texture_width: u32,
    n: int,
)
    ensures
        spec_render_prefix(layer, g, texture_width, n).len() == spec_occupied_count(
            layer.cells@,
            n,
        ),
    decreases n,
{
    if n > 0 {
        lemma_prefix_counts_occupied_cells(layer, g, texture_width, n - 1);
    }
}

/// Law: an empty cell produces no draw call at its grid coordinate — no
/// command of the rendered sequence has that cell's destination position.
pub proof fn lemma_empty_cell_draws_nothing(
    layer: TileLayer,
    g: TilesetGeometry,
    texture_width: u32,
    texture_height: u32,
    x: int,
    y: int,
)
    requires
        render_inputs_ok(layer, g, texture_width, texture_height),
        g.tile_width >= 1,
        g.tile_height >= 1,
        0 <= x < layer.width,
        0 <= y < layer.height,
        layer.cell_at(x, y) is None,
    ensures
        forall|i: int|
            0 <= i < spec_render(layer, g, texture_width).len() ==> !((#[trigger] spec_render(
                layer,
                g,
                texture_width,
            )[i]).dest_x == x * g.tile_width && spec_render(layer, g, texture_width)[i].dest_y == y
                * g.tile_height),
{
    let cmds = spec_render(layer, g, texture_width);
    let w = layer.width as int;
    let tw = g.tile_width as int;
    let th = g.tile_height as int;
    assert forall|i: int| 0 <= i < cmds.len() implies !((#[trigger] cmds[i]).dest_x == x * tw
        && cmds[i].dest_y == y * th) by {
        if cmds[i].dest_x == x * tw && cmds[i].dest_y == y * th {
            lemma_prefix_element_source(layer, g, texture_width, layer.cells@.len() as int, i);
            let j = choose|j: int|
                0 <= j < layer.cells@.len() && (#[trigger] layer.cells@[j]) is Some && cmds[i]
                    == spec_cell_command(j, layer.cells@[j]->Some_0, layer, g, texture_width);
            // Recover the grid coordinate of cell j and show no truncation
            // happened in the command's destination fields.
            lemma_mod_bound(j, w);
            lemma_fundamental_div_mod(j, w);
            let jx = j % w;
            let jy = j / w;
            assert(jy < layer.height && jy >= 0) by (nonlinear_arith)
                requires
                    j == w * jy + jx,
                    0 <= jx < w,
                    0 <= j < w * layer.height as int,
            ;
            assert(jx * tw <= u32::MAX && jy * th <= u32::MAX && x * tw <= u32::MAX && y * th
                <= u32::MAX) by (nonlinear_arith)
                requires
                    0 <= jx < w,
                    0 <= jy < layer.height as int,
                    0 <= x < w,
                    0 <= y < layer.height as int,
                    w * tw <= u32::MAX,
                    (layer.height as int) * th <= u32::MAX,
                    tw >= 1,
                    th >= 1,
            ;
            assert(cmds[i].dest_x == jx * tw && cmds[i].dest_y == jy * th);
            assert(jx == x && jy == y) by (nonlinear_arith)
                requires
                    jx * tw == x * tw,
                    jy * th == y * th,
                    tw >= 1,
                    th >= 1,
            ;
            assert(j == y * w + x) by (nonlinear_arith)
                requires
                    j == w * jy + jx,
                    jx == x,
                    jy == y,
            ;
            assert(layer.cells@[y * w + x] is None);
            assert(false);
        }
    }
}

/// Every command of a rendered prefix comes from some occupied cell.
proof fn lemma_prefix_element_source(
    layer: TileLayer,
    g: TilesetGeometry,
    texture_width: u32,
    n: int,
    i: int,
)
    requires
        n <= layer.cells@.len(),
        0 <= i < spec_render_prefix(layer, g, texture_width, n).len(),
    ensures
        exists|j: int|
            0 <= j < n && (#[trigger] layer.cells@[j]) is Some && spec_render_prefix(
                layer,
                g,
                texture_width,
                n,
            )[i] == spec_cell_command(j, layer.cells@[j]->Some_0, layer, g, texture_width),
    decreases n,
{
    if n <= 0 {
        assert(false);
    } else {
        let rest = spec_render_prefix(layer, g, texture_width, n - 1);
        let full = spec_render_prefix(layer, g, texture_width, n);
        match layer.cells@[n - 1] {
            Option::Some(c) => {
                if i < rest.len() {
                    lemma_prefix_element_source(layer, g, texture_width, n - 1, i);
                    let j = choose|j: int|
                        0 <= j < n - 1 && (#[trigger] layer.cells@[j]) is Some && rest[i]
                            == spec_cell_command(j, layer.cells@[j]->Some_0, layer, g,
                        texture_width);
                    assert(full[i] == rest[i]);
                    assert(0 <= j < n && layer.cells@[j] is Some && full[i] == spec_cell_command(
                        j,
                        layer.cells@[j]->Some_0,
                        layer,
                        g,
                        texture_width,
                    ));
                } else {
                    assert(full[i] == spec_cell_command(n - 1, c, layer, g, texture_width));
                    assert(0 <= n - 1 < n && layer.cells@[n - 1] is Some && full[i]
                        == spec_cell_command(n - 1, layer.cells@[n - 1]->Some_0, layer, g,
                    texture_width));
                }
            },
            Option::None => {
                lemma_prefix_element_source(layer, g, texture_width, n - 1, i);
                let j = choose|j: int|
                    0 <= j < n - 1 && (#[trigger] layer.cells@[j]) is Some && rest[i]
                        == spec_cell_command(j, layer.cells@[j]->Some_0, layer, g, texture_width);
                assert(full[i] == rest[i]);
                assert(0 <= j < n && layer.cells@[j] is Some && full[i] == spec_cell_command(
                    j,
                    layer.cells@[j]->Some_0,
                    layer,
                    g,
                    texture_width,
                ));
            },
        }
    }
}

} // verus!
