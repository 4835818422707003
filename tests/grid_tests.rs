use fractal_viewer::mandelbrot::{Data, FractalSample, FractalType, State};
use fractal_viewer::palette::{black, new_bw, Color, ColorMode, Palette, PaletteType};
use fractal_viewer::render::{
    cycle_palette, render_image_linear, render_image_modulus, render_image_to_surface,
    StateAndPalette,
};
use num_complex::Complex64;

fn state(width: u32, height: u32, max_iterations: u32) -> State<f64, Complex64> {
    State {
        width,
        height,
        max_iterations,
        scale: 2.0,
        center: Complex64::new(0.0, 0.0),
        fractal_type: FractalType::Mandelbrot,
    }
}

fn rgb(r: u8, g: u8, b: u8) -> Color {
    Color { r, g, b }
}

fn assert_blank(d: &Data<f64, Complex64>) {
    assert_eq!(d.fractal_data.len(), d.state.height as usize);
    for row in &d.fractal_data {
        assert_eq!(row.len(), d.state.width as usize);
        for s in row {
            assert_eq!(s.escape, 0);
            assert_eq!(s.z, Complex64::new(0.0, 0.0));
        }
    }
}

/// A 2 by 3 grid whose escape counts are 0, 1, 2 on the top row and 3, 4, 5
/// below.
fn counted_grid(max_iterations: u32) -> Data<f64, Complex64> {
    let mut d = Data::new(state(3, 2, max_iterations));
    for y in 0..2 {
        for x in 0..3 {
            d.fractal_data[y][x] = FractalSample { z: Complex64::new(1.0, 1.0), escape: (y * 3 + x) as u32 };
        }
    }
    d
}

#[test]
fn new_grid_has_configured_shape() {
    let d = Data::new(state(4, 3, 50));
    assert_eq!(d.state.width, 4);
    assert_eq!(d.state.max_iterations, 50);
    assert_blank(&d);
}

#[test]
fn single_cell_grid() {
    let d = Data::new(state(1, 1, 1));
    assert_eq!(d.fractal_data.len(), 1);
    assert_eq!(d.fractal_data[0].len(), 1);
}

#[test]
fn resize_replaces_the_whole_grid() {
    let mut d = counted_grid(10);
    d.state.width = 5;
    d.state.height = 4;
    d.resize();
    assert_blank(&d);
    assert_eq!(d.fractal_data.len(), 4);
    assert_eq!(d.fractal_data[3].len(), 5);

    d.state.width = 2;
    d.state.height = 1;
    d.fractal_data[0][1].escape = 9;
    d.resize();
    assert_eq!(d.fractal_data.len(), 1);
    assert_eq!(d.fractal_data[0].len(), 2);
    assert_blank(&d);
}

#[test]
fn linear_render_scales_escape_counts() {
    let d = counted_grid(5);
    let pal = vec![rgb(10, 0, 0), rgb(20, 0, 0), rgb(30, 0, 0)];
    let mut buf = vec![rgb(9, 9, 9); 8];
    render_image_linear(&d, &mut buf, &pal);
    assert_eq!(
        buf,
        vec![
            rgb(10, 0, 0),
            rgb(10, 0, 0),
            rgb(10, 0, 0),
            rgb(20, 0, 0),
            rgb(20, 0, 0),
            black(),
            rgb(9, 9, 9),
            rgb(9, 9, 9),
        ]
    );
}

#[test]
fn modulus_render_wraps_escape_counts() {
    let d = counted_grid(4);
    let pal = vec![rgb(10, 0, 0), rgb(20, 0, 0), rgb(30, 0, 0)];
    let mut buf = vec![rgb(9, 9, 9); 6];
    render_image_modulus(&d, &mut buf, &pal);
    assert_eq!(
        buf,
        vec![rgb(10, 0, 0), rgb(20, 0, 0), rgb(30, 0, 0), rgb(10, 0, 0), black(), black()]
    );
}

#[test]
fn surface_render_follows_palette_mode() {
    let d = counted_grid(6);
    let bw = new_bw();
    let mut buf = vec![rgb(9, 9, 9); 6];
    render_image_to_surface(&d, &mut buf, &bw);
    assert_eq!(buf[1], rgb(42, 42, 42));
    assert_eq!(buf[5], rgb(211, 211, 211));

    let modulus = Palette { palette_type: PaletteType::Color1Mod, color_mode: ColorMode::Modulus, palette: vec![rgb(1, 1, 1), rgb(2, 2, 2)] };
    render_image_to_surface(&d, &mut buf, &modulus);
    assert_eq!(buf, vec![rgb(1, 1, 1), rgb(2, 2, 2), rgb(1, 1, 1), rgb(2, 2, 2), rgb(1, 1, 1), rgb(2, 2, 2)]);
}

#[test]
fn palettes_cycle_through_every_preset() {
    let mut p = new_bw();
    let mut seen = vec![];
    for _ in 0..5 {
        p = cycle_palette(p);
        seen.push(p.palette_type);
    }
    assert_eq!(
        seen,
        vec![PaletteType::Color1Lin, PaletteType::Color1Mod, PaletteType::Color2Lin, PaletteType::Color2Mod, PaletteType::BW]
    );
    assert_eq!(p.palette, new_bw().palette);
}

#[test]
fn request_keeps_state_and_palette() {
    let mut s = state(8, 6, 100);
    s.fractal_type = FractalType::Julia(Complex64::new(-0.4, 0.6));
    let r = StateAndPalette::new(s, PaletteType::Color2Mod);
    assert_eq!(r.pal, PaletteType::Color2Mod);
    assert_eq!(r.state.width, 8);
    assert_eq!(r.state.fractal_type, FractalType::Julia(Complex64::new(-0.4, 0.6)));
}
