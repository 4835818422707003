use vstd::prelude::*;
use crate::mandelbrot::{Data, State};
use crate::palette::{
    escape_color_spec, is_preset, new_bw, new_color1_lin, new_color1_mod, new_color2_lin,
    new_color2_mod, pick_color, Color, ColorMode, Palette, PaletteType,
};

verus! {

/// The color that the cell at row `y`, column `x` is drawn with.
pub open spec fn cell_color<R, Z>(d: &Data<R, Z>, y: int, x: int, colors: Seq<Color>, mode: ColorMode) -> Color {
    escape_color_spec(d.sample(y, x).escape as int, d.state.max_iterations as int, colors, mode)
}

/// `buf` holds, row-major from its start, the color of every cell of `d`, and
/// past the grid what `before` held.
pub open spec fn rendered<R, Z>(
    d: &Data<R, Z>,
    buf: Seq<Color>,
    before: Seq<Color>,
    colors: Seq<Color>,
    mode: ColorMode,
) -> bool {
    &&& buf.len() == before.len()
    &&& forall|y: int, x: int|
        0 <= y < d.state.height && 0 <= x < d.state.width ==> #[trigger] buf[y * d.state.width + x]
            == cell_color(d, y, x, colors, mode)
    &&& forall|i: int|
        d.state.height * d.state.width <= i < buf.len() ==> #[trigger] buf[i] == before[i]
}

proof fn lemma_cell_before(y1: int, x1: int, y2: int, x2: int, w: int)
    requires
        0 <= y1,
        0 <= x1 < w,
        0 <= x2,
        y1 < y2,
    ensures
        y1 * w + x1 < y2 * w + x2,
{
    assert(y1 * w + x1 < y2 * w + x2) by (nonlinear_arith)
        requires
            0 <= y1,
            0 <= x1 < w,
            0 <= x2,
            y1 < y2,
    ;
}

proof fn lemma_row_end(y: int, x: int, w: int, h: int)
    requires
        0 <= y < h,
        0 <= x < w,
    ensures
        y * w + x < h * w,
        0 <= y * w,
{
    assert(y * w + x < h * w && 0 <= y * w) by (nonlinear_arith)
        requires
            0 <= y < h,
            0 <= x < w,
    ;
}

/// Writes the color of every cell into `buffer`, row-major.
fn render_with_mode<R, Z>(fractal: &Data<R, Z>, buffer: &mut Vec<Color>, pal: &Vec<Color>, mode: ColorMode)
    requires
        fractal.wf(),
        pal@.len() > 0,
        old(buffer)@.len() >= fractal.state.height * fractal.state.width,
    ensures
        rendered(fractal, final(buffer)@, old(buffer)@, pal@, mode),
{
    let w = fractal.state.width;
    let h = fractal.state.height;
    let max = fractal.state.max_iterations;
    let ghost before = buffer@;
    let n: usize = buffer.len();
    let mut offset: usize = 0;
    let mut y: u32 = 0;
    while y < h
        invariant
            fractal.wf(),
            pal@.len() > 0,
            w == fractal.state.width,
            h == fractal.state.height,
            max == fractal.state.max_iterations,
            y <= h,
            offset == y * w,
            buffer@.len() == before.len(),
            before.len() >= h * w,
            before.len() == n,
            forall|j: int, x: int|
                0 <= j < y && 0 <= x < w ==> #[trigger] buffer@[j * w + x] == cell_color(
                    fractal,
                    j,
                    x,
                    pal@,
                    mode,
                ),
            forall|i: int| y * w <= i < buffer@.len() ==> #[trigger] buffer@[i] == before[i],
        decreases h - y,
    {
        let row = &fractal.fractal_data[y as usize];
        let mut x: u32 = 0;
        while x < w
            invariant
                fractal.wf(),
                pal@.len() > 0,
                w == fractal.state.width,
                h == fractal.state.height,
                max == fractal.state.max_iterations,
                y < h,
                x <= w,
                *row == fractal.fractal_data@[y as int],
                offset == y * w + x,
                buffer@.len() == before.len(),
                before.len() >= h * w,
                before.len() == n,
                forall|j: int, i: int|
                    0 <= j < y && 0 <= i < w ==> #[trigger] buffer@[j * w + i] == cell_color(
                        fractal,
                        j,
                        i,
                        pal@,
                        mode,
                    ),
                forall|i: int| 0 <= i < x ==> #[trigger] buffer@[y * w + i] == cell_color(
                    fractal,
                    y as int,
                    i,
                    pal@,
                    mode,
                ),
                forall|i: int| y * w + x <= i < buffer@.len() ==> #[trigger] buffer@[i] == before[i],
            decreases w - x,
        {
            proof {
                lemma_row_end(y as int, x as int, w as int, h as int);
            }
            let c = pick_color(row[x as usize].escape, max, pal, mode);
            let ghost prev = buffer@;
            buffer.set(offset, c);
            proof {
                assert forall|j: int, i: int| 0 <= j < y && 0 <= i < w implies #[trigger] buffer@[j
                    * w + i] == cell_color(fractal, j, i, pal@, mode) by {
                    lemma_cell_before(j, i, y as int, x as int, w as int);
                    assert(buffer@[j * w + i] == prev[j * w + i]);
                }
            }
            offset = offset + 1;
            x = x + 1;
        }
        proof {
            assert forall|j: int, i: int| 0 <= j < y + 1 && 0 <= i < w implies #[trigger] buffer@[j
                * w + i] == cell_color(fractal, j, i, pal@, mode) by {
                if j == y {
                    assert(buffer@[y * w + i] == cell_color(fractal, y as int, i, pal@, mode));
                }
            }
            assert((y + 1) * w == y * w + w) by (nonlinear_arith);
        }
        y = y + 1;
    }
    assert(h * w == y * w);
}

/// Draws every cell with the entry of `pal` scaled linearly from its escape
/// count, black where it did not escape.
pub fn render_image_linear<R, Z>(fractal: &Data<R, Z>, buffer: &mut Vec<Color>, pal: &Vec<Color>)
    requires
        fractal.wf(),
        pal@.len() > 0,
        old(buffer)@.len() >= fractal.state.height * fractal.state.width,
    ensures
        rendered(fractal, final(buffer)@, old(buffer)@, pal@, ColorMode::LinearScale),
{
    render_with_mode(fractal, buffer, pal, ColorMode::LinearScale)
}

/// Draws every cell with the entry of `pal` at its escape count modulo the
/// palette's length, black where it did not escape.
pub fn render_image_modulus<R, Z>(fractal: &Data<R, Z>, buffer: &mut Vec<Color>, pal: &Vec<Color>)
    requires
        fractal.wf(),
        pal@.len() > 0,
        old(buffer)@.len() >= fractal.state.height * fractal.state.width,
    ensures
        rendered(fractal, final(buffer)@, old(buffer)@, pal@, ColorMode::Modulus),
{
    render_with_mode(fractal, buffer, pal, ColorMode::Modulus)
}

/// Draws every cell under the palette's own mode.
pub fn render_image_to_surface<R, Z>(fractal: &Data<R, Z>, buffer: &mut Vec<Color>, pal: &Palette)
    requires
        fractal.wf(),
        pal.palette@.len() > 0,
        old(buffer)@.len() >= fractal.state.height * fractal.state.width,
    ensures
        rendered(fractal, final(buffer)@, old(buffer)@, pal.palette@, pal.color_mode),
{
    match pal.color_mode {
        ColorMode::LinearScale => render_image_linear(fractal, buffer, &pal.palette),
        ColorMode::Modulus => render_image_modulus(fractal, buffer, &pal.palette),
    }
}

/// The preset that follows `t` in the viewer's cycle.
pub open spec fn next_palette_type(t: PaletteType) -> PaletteType {
    match t {
        PaletteType::BW => PaletteType::Color1Lin,
        PaletteType::Color1Lin => PaletteType::Color1Mod,
        PaletteType::Color1Mod => PaletteType::Color2Lin,
        PaletteType::Color2Lin => PaletteType::Color2Mod,
        PaletteType::Color2Mod => PaletteType::BW,
    }
}

/// Replaces a palette by the next preset of the cycle.
pub fn cycle_palette(p: Palette) -> (r: Palette)
    ensures
        is_preset(&r, next_palette_type(p.palette_type)),
{
    match p.palette_type {
        PaletteType::BW => new_color1_lin(),
        PaletteType::Color1Lin => new_color1_mod(),
        PaletteType::Color1Mod => new_color2_lin(),
        PaletteType::Color2Lin => new_color2_mod(),
        PaletteType::Color2Mod => new_bw(),
    }
}

/// A request to draw: the viewport and the preset to color it with.
pub struct StateAndPalette<R, Z> {
    pub state: State<R, Z>,
    pub pal: PaletteType,
}

impl<R, Z> StateAndPalette<R, Z> {
    pub fn new(state: State<R, Z>, pal: PaletteType) -> (r: Self)
        ensures
            r.state == state,
            r.pal == pal,
    {
        StateAndPalette { state, pal }
    }
}

} // verus!
