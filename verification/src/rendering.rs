//! From cells to pixels: the colour of a cell, the cell behind a pixel, and
//! the size of the surface that the pixels go to.

use vstd::prelude::*;

use crate::sim::{BurnState, CellState, SimulationFrame};
use crate::util::{lemma_row_major, lerp_channel, row_major, Color};

verus! {

/// How a view divides its surface.
pub enum RenderSectioning {
    Singular(RenderMode),
    Multiple([Option<RenderMode>; 4]),
}

/// What a section shows.
pub enum RenderMode {
    Standard,
}

/// The colour of a burning cell.
pub open spec fn burning_rgb() -> (u8, u8, u8) {
    (255, 0, 0)
}

/// The colour of a tree that does not burn.
pub open spec fn tree_rgb() -> (u8, u8, u8) {
    (0, 160, 0)
}

/// The colour of bare ground.
pub open spec fn ground_rgb() -> (u8, u8, u8) {
    (26, 26, 26)
}

/// The colour of ground under full underbrush.
pub open spec fn underbrush_rgb() -> (u8, u8, u8) {
    (140, 105, 20)
}

/// The colour of a cell: red where it burns, green where a tree stands, and
/// else the ground's gray blended towards the tint of underbrush by the
/// cell's underbrush, capped at one.
pub open spec fn spec_cell_color(cell: CellState) -> (u8, u8, u8) {
    if cell.spec_is_burning() {
        burning_rgb()
    } else if cell.tree {
        tree_rgb()
    } else {
        let by = cell.underbrush.spec_clamp_unit();
        (
            lerp_channel(ground_rgb().0 as int, underbrush_rgb().0 as int, by@) as u8,
            lerp_channel(ground_rgb().1 as int, underbrush_rgb().1 as int, by@) as u8,
            lerp_channel(ground_rgb().2 as int, underbrush_rgb().2 as int, by@) as u8,
        )
    }
}

/// The colour of a cell.
pub fn cell_color(cell: &CellState) -> (color: Color)
    ensures
        color@ == spec_cell_color(*cell),
{
    match cell.burning {
        BurnState::Burning { .. } => Color::rgb(255, 0, 0),
        BurnState::NotBurning => {
            if cell.tree {
                Color::rgb(0, 160, 0)
            } else {
                let ground = Color::rgb(26, 26, 26);
                let tint = Color::rgb(140, 105, 20);
                ground.lerp(&tint, cell.underbrush.clamp_unit())
            }
        },
    }
}

/// The column, or row, of the forest behind column, or row, `p` of a surface
/// `extent` pixels wide, or high, that shows `cells` cells side by side.
pub open spec fn spec_pixel_cell(p: int, extent: int, cells: int) -> int {
    p * cells / extent
}

/// The cell behind a pixel lies within the forest.
pub proof fn lemma_pixel_cell(p: int, extent: int, cells: int)
    requires
        0 <= p < extent,
        0 <= cells,
    ensures
        0 <= spec_pixel_cell(p, extent, cells),
        cells > 0 ==> spec_pixel_cell(p, extent, cells) < cells,
        0 <= p * cells,
{
    assert(0 <= p * cells) by (nonlinear_arith)
        requires
            0 <= p,
            0 <= cells,
    ;
    if cells > 0 {
        assert(p * cells < extent * cells) by (nonlinear_arith)
            requires
                0 <= p < extent,
                0 < cells,
        ;
        vstd::arithmetic::div_mod::lemma_div_pos_is_pos(p * cells, extent);
        assert(p * cells / extent < cells) by {
            vstd::arithmetic::div_mod::lemma_div_is_ordered(p * cells, extent * cells - 1, extent);
            assert((extent * cells - 1) / extent < cells) by (nonlinear_arith)
                requires
                    0 < extent,
                    0 < cells,
            ;
        }
    } else {
        assert(p * cells == 0) by (nonlinear_arith)
            requires
                cells == 0,
        ;
    }
}

/// The column, or row, of the forest behind a column, or row, of the surface.
pub fn pixel_cell(p: usize, extent: usize, cells: usize) -> (c: usize)
    requires
        p < extent,
    ensures
        c == spec_pixel_cell(p as int, extent as int, cells as int),
        cells > 0 ==> c < cells,
{
    proof {
        lemma_pixel_cell(p as int, extent as int, cells as int);
        assert(p * cells <= usize::MAX * usize::MAX) by (nonlinear_arith)
            requires
                0 <= p <= usize::MAX,
                0 <= cells <= usize::MAX,
        ;
        if cells == 0 {
            assert(p * cells == 0) by (nonlinear_arith)
                requires
                    cells == 0,
            ;
        }
    }
    let wide: u128 = (p as u128) * (cells as u128) / (extent as u128);
    wide as usize
}

/// The word that pixel `(px, py)` of a surface shows of a frame.
pub open spec fn spec_pixel_word(
    frame: SimulationFrame,
    window_width: int,
    window_height: int,
    px: int,
    py: int,
) -> int {
    let cx = spec_pixel_cell(px, window_width, frame.width as int);
    let cy = spec_pixel_cell(py, window_height, frame.height as int);
    let rgb = spec_cell_color(frame.grid@[row_major(frame.width as int, cx, cy)]);
    rgb.0 * 65536 + rgb.1 * 256 + rgb.2
}

/// Draws a frame into a row-major buffer of `window_width * window_height`
/// words, stretched to fill it: every pixel takes the colour of the cell
/// behind it. A frame without cells leaves the buffer as it is.
pub fn display_simframe(
    frame: &SimulationFrame,
    buffer: &mut Vec<u32>,
    window_width: usize,
    window_height: usize,
)
    requires
        frame.grid@.len() == frame.width * frame.height,
        old(buffer)@.len() == window_width * window_height,
    ensures
        final(buffer)@.len() == old(buffer)@.len(),
        frame.grid@.len() == 0 ==> final(buffer)@ == old(buffer)@,
        frame.grid@.len() > 0 ==> forall|px: int, py: int|
            0 <= px < window_width && 0 <= py < window_height ==> #[trigger] final(buffer)@[row_major(
                window_width as int,
                px,
                py,
            )] == spec_pixel_word(*frame, window_width as int, window_height as int, px, py),
{
    let cells: usize = frame.grid.len();
    let total: usize = buffer.len();
    if cells == 0 {
        return ;
    }
    proof {
        if frame.width == 0 || frame.height == 0 {
            assert(frame.width * frame.height == 0) by (nonlinear_arith)
                requires
                    frame.width == 0 || frame.height == 0,
            ;
        }
    }
    let mut py: usize = 0;
    while py < window_height
        invariant
            py <= window_height,
            cells == frame.grid@.len(),
            cells == frame.width * frame.height,
            frame.width > 0,
            frame.height > 0,
            total == buffer@.len(),
            total == window_width * window_height,
            forall|qx: int, qy: int|
                0 <= qx < window_width && 0 <= qy < py ==> #[trigger] buffer@[row_major(
                    window_width as int,
                    qx,
                    qy,
                )] == spec_pixel_word(*frame, window_width as int, window_height as int, qx, qy),
        decreases window_height - py,
    {
        let cy = pixel_cell(py, window_height, frame.height);
        let mut px: usize = 0;
        while px < window_width
            invariant
                px <= window_width,
                py < window_height,
                cy == spec_pixel_cell(py as int, window_height as int, frame.height as int),
                cy < frame.height,
                cells == frame.grid@.len(),
                cells == frame.width * frame.height,
                frame.width > 0,
                total == buffer@.len(),
                total == window_width * window_height,
                forall|qx: int, qy: int|
                    0 <= qx < window_width && 0 <= qy < py ==> #[trigger] buffer@[row_major(
                        window_width as int,
                        qx,
                        qy,
                    )] == spec_pixel_word(*frame, window_width as int, window_height as int, qx, qy),
                forall|qx: int|
                    0 <= qx < px ==> #[trigger] buffer@[row_major(window_width as int, qx, py as int)]
                        == spec_pixel_word(
                        *frame,
                        window_width as int,
                        window_height as int,
                        qx,
                        py as int,
                    ),
            decreases window_width - px,
        {
            let cx = pixel_cell(px, window_width, frame.width);
            proof {
                lemma_row_major(frame.width as int, frame.height as int, cx as int, cy as int);
                lemma_row_major(window_width as int, window_height as int, px as int, py as int);
            }
            let cell: CellState = frame.grid[cy * frame.width + cx];
            let word: u32 = cell_color(&cell).as_u32();
            let ghost before = buffer@;
            buffer.set(py * window_width + px, word);
            proof {
                assert forall|qx: int, qy: int|
                    0 <= qx < window_width && 0 <= qy < py implies #[trigger] buffer@[row_major(
                    window_width as int,
                    qx,
                    qy,
                )] == spec_pixel_word(*frame, window_width as int, window_height as int, qx, qy) by {
                    lemma_row_major(window_width as int, window_height as int, qx, qy);
                    assert(before[row_major(window_width as int, qx, qy)] == spec_pixel_word(
                        *frame,
                        window_width as int,
                        window_height as int,
                        qx,
                        qy,
                    ));
                }
                assert forall|qx: int| 0 <= qx < px + 1 implies #[trigger] buffer@[row_major(
                    window_width as int,
                    qx,
                    py as int,
                )] == spec_pixel_word(
                    *frame,
                    window_width as int,
                    window_height as int,
                    qx,
                    py as int,
                ) by {
                    lemma_row_major(window_width as int, window_height as int, qx, py as int);
                    if qx < px {
                        assert(before[row_major(window_width as int, qx, py as int)]
                            == spec_pixel_word(
                            *frame,
                            window_width as int,
                            window_height as int,
                            qx,
                            py as int,
                        ));
                    }
                }
            }
            px += 1;
        }
        py += 1;
    }
}

/// The size to configure a surface with: each side at least one pixel.
pub fn surface_extent(width: u32, height: u32) -> (extent: (u32, u32))
    ensures
        extent.0 == if width == 0 {
            1
        } else {
            width
        },
        extent.1 == if height == 0 {
            1
        } else {
            height
        },
{
    (
        if width == 0 {
            1
        } else {
            width
        },
        if height == 0 {
            1
        } else {
            height
        },
    )
}

/// Whether a surface takes a new size: only one with pixels in it.
pub fn resize_applies(width: u32, height: u32) -> (applies: bool)
    ensures
        applies == (width > 0 && height > 0),
{
    width > 0 && height > 0
}

} // verus!
