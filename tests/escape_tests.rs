use fractal_viewer::mandelbrot::{escape_time, fill_row, Data, FractalSample, FractalType, State};
use num_complex::{Complex64, ComplexFloat};

fn mandelbrot(c: Complex64, max_iterations: u32) -> (Complex64, u32) {
    let s = escape_time(&|z: Complex64| z * z + c, &|z: Complex64| z.abs() < 2.0, c, 0, max_iterations);
    (s.z, s.escape)
}

#[test]
fn origin_never_escapes() {
    for max in [1, 2, 50, 500, 5000] {
        let (z, escape) = mandelbrot(Complex64::new(0.0, 0.0), max);
        assert_eq!(escape, max);
        assert_eq!(z, Complex64::new(0.0, 0.0));
    }
}

#[test]
fn three_escapes_at_once() {
    for max in [1, 10, 500] {
        let (z, escape) = mandelbrot(Complex64::new(3.0, 0.0), max);
        assert_eq!(escape, 0);
        assert_eq!(z, Complex64::new(3.0, 0.0));
    }
}

#[test]
fn escape_stays_within_budget() {
    for re in -20..=10 {
        for im in -12..=12 {
            let c = Complex64::new(re as f64 / 10.0, im as f64 / 10.0);
            let (z, escape) = mandelbrot(c, 40);
            assert!(escape <= 40);
            if escape < 40 {
                assert!(z.abs() >= 2.0);
            }
        }
    }
}

#[test]
fn one_escapes_after_two_steps() {
    // 1 -> 2 -> 5: the modulus first reaches 2 after one step.
    let (z, escape) = mandelbrot(Complex64::new(1.0, 0.0), 100);
    assert_eq!(escape, 1);
    assert_eq!(z, Complex64::new(2.0, 0.0));
}

#[test]
fn julia_iteration_uses_fixed_constant() {
    let c = Complex64::new(0.0, 0.0);
    let s = escape_time(&|z: Complex64| z * z + c, &|z: Complex64| z.abs() < 2.0, Complex64::new(1.5, 0.0), 0, 10);
    // 1.5 -> 2.25: escapes after one step.
    assert_eq!(s.escape, 1);
    assert_eq!(s.z, Complex64::new(2.25, 0.0));
}

#[test]
fn count_starts_where_asked() {
    let s = escape_time(&|z: u32| z + 1, &|z: u32| z < 5, 0u32, 3, 100);
    assert_eq!(s.escape, 8);
    assert_eq!(s.z, 5);
    let t = escape_time(&|z: u32| z + 1, &|z: u32| z < 5, 0u32, 100, 10);
    assert_eq!(t.escape, 100);
    assert_eq!(t.z, 0);
}

/// Fills every row of an 8 by 8 viewport of width 2 centered on 0, whose
/// pixel coordinates are exact in binary.
fn computed_grid(max_iterations: u32) -> Data<f64, Complex64> {
    let state = State {
        width: 8,
        height: 8,
        max_iterations,
        scale: 2.0,
        center: Complex64::new(0.0, 0.0),
        fractal_type: FractalType::Mandelbrot,
    };
    let mut d = Data::new(state);
    for (y, row) in d.fractal_data.iter_mut().enumerate() {
        let im = 1.0 - 0.25 * y as f64;
        fill_row(row, 8, &|x: u32| {
            let c = Complex64::new(-1.0 + 0.25 * x as f64, im);
            escape_time(&|z: Complex64| z * z + c, &|z: Complex64| z.abs() < 2.0, c, 0, max_iterations)
        });
    }
    d
}

#[test]
fn fill_row_writes_each_column() {
    let mut row = vec![FractalSample { z: 0u32, escape: 9 }; 4];
    fill_row(&mut row, 4, &|x: u32| FractalSample { z: x * 10, escape: x });
    assert_eq!(row.iter().map(|s| (s.z, s.escape)).collect::<Vec<_>>(), vec![(0, 0), (10, 1), (20, 2), (30, 3)]);
}

#[test]
fn grid_escapes_within_budget() {
    let d = computed_grid(30);
    assert_eq!(d.fractal_data.len(), 8);
    for row in &d.fractal_data {
        assert_eq!(row.len(), 8);
        for s in row {
            assert!(s.escape <= 30);
        }
    }
    // Row 4, column 4 is the origin.
    assert_eq!(d.fractal_data[4][4].escape, 30);
}

#[test]
fn grid_is_deterministic() {
    let a = computed_grid(60);
    let b = computed_grid(60);
    for (ra, rb) in a.fractal_data.iter().zip(b.fractal_data.iter()) {
        for (sa, sb) in ra.iter().zip(rb.iter()) {
            assert_eq!(sa.escape, sb.escape);
            assert_eq!(sa.z.re.to_bits(), sb.z.re.to_bits());
            assert_eq!(sa.z.im.to_bits(), sb.z.im.to_bits());
        }
    }
}

#[test]
fn grid_is_mirrored_about_the_real_axis() {
    let d = computed_grid(100);
    for y in 1..8 {
        for x in 0..8 {
            assert_eq!(d.fractal_data[y][x].escape, d.fractal_data[8 - y][x].escape);
        }
    }
}
