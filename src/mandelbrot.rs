use vstd::prelude::*;

verus! {

/// Which set is drawn: the Mandelbrot set, or the Julia set of a fixed
/// constant.
#[derive(Clone, Copy, Debug, PartialEq)]
pub enum FractalType<Z> {
    Mandelbrot,
    Julia(Z),
}

/// A viewport and iteration budget. `R` is the real type of the viewport's
/// width in plane units, `Z` the complex type of its center.
#[derive(Clone, Copy, Debug)]
pub struct State<R, Z> {
    pub width: u32,
    pub height: u32,
    pub max_iterations: u32,
    pub scale: R,
    pub center: Z,
    pub fractal_type: FractalType<Z>,
}

/// The result at one grid cell: the value at which iteration stopped and the
/// iteration count reached.
#[derive(Clone, Copy, Debug, Default)]
pub struct FractalSample<Z> {
    pub z: Z,
    pub escape: u32,
}

/// A viewport with its grid of samples, one row per pixel row.
pub struct Data<R, Z> {
    pub state: State<R, Z>,
    pub fractal_data: Vec<Vec<FractalSample<Z>>>,
}

impl<R, Z> State<R, Z> {
    /// The dimensions are usable: a grid of them has a cell to address.
    pub open spec fn valid_size(&self) -> bool {
        self.width > 0 && self.height > 0
    }
}

impl<R, Z> Data<R, Z> {
    /// The grid has `height` rows of `width` samples each.
    pub open spec fn wf(&self) -> bool {
        &&& self.fractal_data@.len() == self.state.height
        &&& forall|y: int|
            0 <= y < self.fractal_data@.len() ==> #[trigger] self.fractal_data@[y]@.len()
                == self.state.width
    }

    /// The sample at row `y`, column `x`.
    pub open spec fn sample(&self, y: int, x: int) -> FractalSample<Z> {
        self.fractal_data@[y]@[x]
    }

    /// Every sample is the same blank sample, with an escape count of zero.
    pub open spec fn is_blank(&self) -> bool {
        forall|y: int, x: int|
            0 <= y < self.state.height && 0 <= x < self.state.width ==> {
                &&& #[trigger] self.sample(y, x) == self.sample(0, 0)
                &&& self.sample(y, x).escape == 0
            }
    }
}

/// `height` rows of `width` copies of `s`.
fn blank_rows<Z: Copy>(width: u32, height: u32, s: FractalSample<Z>) -> (rows: Vec<
    Vec<FractalSample<Z>>,
>)
    ensures
        rows@.len() == height,
        forall|y: int| 0 <= y < height ==> #[trigger] rows@[y]@.len() == width,
        forall|y: int, x: int| 0 <= y < height && 0 <= x < width ==> #[trigger] rows@[y]@[x] == s,
{
    let mut rows: Vec<Vec<FractalSample<Z>>> = Vec::new();
    let mut y: u32 = 0;
    while y < height
        invariant
            y <= height,
            rows@.len() == y,
            forall|j: int| 0 <= j < y ==> #[trigger] rows@[j]@.len() == width,
            forall|j: int, x: int| 0 <= j < y && 0 <= x < width ==> #[trigger] rows@[j]@[x] == s,
        decreases height - y,
    {
        let mut row: Vec<FractalSample<Z>> = Vec::new();
        let mut x: u32 = 0;
        while x < width
            invariant
                x <= width,
                row@.len() == x,
                forall|i: int| 0 <= i < x ==> #[trigger] row@[i] == s,
            decreases width - x,
        {
            row.push(s);
            x = x + 1;
        }
        rows.push(row);
        y = y + 1;
    }
    rows
}

impl<R, Z: Copy + Default> Data<R, Z> {
    /// A grid for `state`, every sample blank.
    pub fn new(state: State<R, Z>) -> (d: Self)
        requires
            state.valid_size(),
        ensures
            d.state == state,
            d.wf(),
            d.is_blank(),
    {
        let blank = FractalSample { z: Z::default(), escape: 0 };
        let fractal_data = blank_rows(state.width, state.height, blank);
        Data { state, fractal_data }
    }

    /// Replaces the whole grid by a blank one of the dimensions that the
    /// state now holds.
    pub fn resize(&mut self)
        requires
            old(self).state.valid_size(),
        ensures
            final(self).state == old(self).state,
            final(self).wf(),
            final(self).is_blank(),
    {
        let blank = FractalSample { z: Z::default(), escape: 0 };
        self.fractal_data = blank_rows(self.state.width, self.state.height, blank);
    }
}

/// `orbit` runs from `z0` by `step`, each point but the last being one at
/// which `inside` held.
pub open spec fn is_orbit<Z, F: Fn(Z) -> Z, G: Fn(Z) -> bool>(
    step: F,
    inside: G,
    orbit: Seq<Z>,
    z0: Z,
) -> bool {
    &&& orbit.len() > 0
    &&& orbit[0] == z0
    &&& forall|k: int| 0 <= k < orbit.len() - 1 ==> call_ensures(inside, (#[trigger] orbit[k],), true)
    &&& forall|k: int|
        0 <= k < orbit.len() - 1 ==> call_ensures(step, (orbit[k],), #[trigger] orbit[k + 1])
}

/// Escape-time iteration: from `z0`, replaces `z` by `step(z)` while the
/// count is below `max_iterations` and `inside(z)` holds, counting from
/// `cur_iterations`. The sample holds the last `z` and the count reached.
pub fn escape_time<Z: Copy, F: Fn(Z) -> Z, G: Fn(Z) -> bool>(
    step: &F,
    inside: &G,
    z0: Z,
    cur_iterations: u32,
    max_iterations: u32,
) -> (s: FractalSample<Z>)
    requires
        forall|z: Z| call_requires(*step, (z,)),
        forall|z: Z| call_requires(*inside, (z,)),
    ensures
        cur_iterations <= max_iterations ==> cur_iterations <= s.escape <= max_iterations,
        cur_iterations >= max_iterations ==> s == (FractalSample { z: z0, escape: cur_iterations }),
        s.escape < max_iterations ==> call_ensures(*inside, (s.z,), false),
        exists|orbit: Seq<Z>|
            #[trigger] is_orbit(*step, *inside, orbit, z0) && orbit.len() == s.escape - cur_iterations + 1
                && orbit.last() == s.z,
{
    let mut z = z0;
    let mut i: u32 = cur_iterations;
    let ghost mut orbit: Seq<Z> = seq![z0];
    loop
        invariant
            forall|z: Z| call_requires(*step, (z,)),
            forall|z: Z| call_requires(*inside, (z,)),
            cur_iterations <= i,
            cur_iterations <= max_iterations ==> i <= max_iterations,
            cur_iterations >= max_iterations ==> i == cur_iterations && z == z0,
            is_orbit(*step, *inside, orbit, z0),
            orbit.len() == i - cur_iterations + 1,
            orbit.last() == z,
        ensures
            cur_iterations <= i,
            cur_iterations <= max_iterations ==> i <= max_iterations,
            cur_iterations >= max_iterations ==> i == cur_iterations && z == z0,
            i < max_iterations ==> call_ensures(*inside, (z,), false),
            is_orbit(*step, *inside, orbit, z0),
            orbit.len() == i - cur_iterations + 1,
            orbit.last() == z,
        decreases max_iterations - i,
    {
        if i >= max_iterations {
            break;
        }
        let going = inside(z);
        if !going {
            break;
        }
        let next = step(z);
        proof {
            let old_orbit = orbit;
            orbit = orbit.push(next);
            assert(orbit[0] == old_orbit[0]);
            assert forall|k: int| 0 <= k < orbit.len() - 1 implies call_ensures(
                *inside,
                (#[trigger] orbit[k],),
                true,
            ) by {
                if k < old_orbit.len() - 1 {
                    assert(orbit[k] == old_orbit[k]);
                } else {
                    assert(orbit[k] == z);
                }
            }
            assert forall|k: int| 0 <= k < orbit.len() - 1 implies call_ensures(
                *step,
                (orbit[k],),
                #[trigger] orbit[k + 1],
            ) by {
                if k < old_orbit.len() - 1 {
                    assert(orbit[k] == old_orbit[k]);
                    assert(orbit[k + 1] == old_orbit[k + 1]);
                } else {
                    assert(orbit[k] == z);
                    assert(orbit[k + 1] == next);
                }
            }
        }
        z = next;
        i = i + 1;
    }
    FractalSample { z, escape: i }
}

/// Fills one row of a grid: column `x` gets `sample_at(x)`. The row is the
/// only data written, so rows can be filled independently of each other.
pub fn fill_row<Z, F: Fn(u32) -> FractalSample<Z>>(
    row: &mut Vec<FractalSample<Z>>,
    width: u32,
    sample_at: &F,
)
    requires
        old(row)@.len() == width,
        forall|x: u32| x < width ==> call_requires(*sample_at, (x,)),
    ensures
        final(row)@.len() == width,
        forall|x: int| 0 <= x < width ==> call_ensures(*sample_at, (x as u32,), #[trigger] final(row)@[x]),
{
    let mut x: u32 = 0;
    while x < width
        invariant
            x <= width,
            row@.len() == width,
            forall|x: u32| x < width ==> call_requires(*sample_at, (x,)),
            forall|i: int| 0 <= i < x ==> call_ensures(*sample_at, (i as u32,), #[trigger] row@[i]),
        decreases width - x,
    {
        let s = sample_at(x);
        row.set(x as usize, s);
        x = x + 1;
    }
}

} // verus!
