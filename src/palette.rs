use vstd::prelude::*;

verus! {

/// A displayable color with red, green and blue channels.
#[derive(Clone, Copy, Debug, PartialEq, Eq, Structural)]
pub struct Color {
    pub r: u8,
    pub g: u8,
    pub b: u8,
}

/// A control color given by normalized channel intensities, in thousandths:
/// `0` is no intensity and `1000` is full intensity.
#[derive(Clone, Copy, Debug, PartialEq, Eq, Structural)]
pub struct Intensity {
    pub r: u16,
    pub g: u16,
    pub b: u16,
}

/// One interpolation run of a palette: `steps` entries going from `from`
/// towards `to`, the first of them being `from` itself.
#[derive(Clone, Copy, Debug, PartialEq, Eq, Structural)]
pub struct Segment {
    pub from: Intensity,
    pub to: Intensity,
    pub steps: usize,
}

/// How an escape count picks a palette entry.
#[derive(Clone, Copy, Debug, PartialEq, Eq, Structural)]
pub enum ColorMode {
    LinearScale,
    Modulus,
}

/// The named palette presets.
#[derive(Clone, Copy, Debug, PartialEq, Eq, Structural)]
pub enum PaletteType {
    BW,
    Color1Mod,
    Color1Lin,
    Color2Mod,
    Color2Lin,
}

/// An ordered sequence of colors with the mode used to index it.
pub struct Palette {
    pub palette_type: PaletteType,
    pub color_mode: ColorMode,
    pub palette: Vec<Color>,
}

pub open spec fn black_spec() -> Color {
    Color { r: 0, g: 0, b: 0 }
}

/// The color of points that never escape.
pub fn black() -> (c: Color)
    ensures
        c == black_spec(),
{
    Color { r: 0, g: 0, b: 0 }
}

/// A normalized level of `num / den` (in thousandths) scaled to `0..=255`,
/// truncated and clamped.
pub open spec fn scaled_level(num: int, den: int) -> int {
    let v = (255 * num) / den;
    if v > 255 {
        255
    } else {
        v
    }
}

/// Channel `k` of a run of `steps` entries from level `s` to level `d`:
/// the exact interpolated level `s + (d - s) * k / steps`, scaled.
pub open spec fn step_channel(s: int, d: int, steps: int, k: int) -> int {
    scaled_level(s * (steps - k) + d * k, 1000 * steps)
}

pub open spec fn intensity_color(c: Intensity) -> Color {
    Color {
        r: scaled_level(c.r as int, 1000) as u8,
        g: scaled_level(c.g as int, 1000) as u8,
        b: scaled_level(c.b as int, 1000) as u8,
    }
}

pub open spec fn step_color(seg: Segment, k: int) -> Color {
    Color {
        r: step_channel(seg.from.r as int, seg.to.r as int, seg.steps as int, k) as u8,
        g: step_channel(seg.from.g as int, seg.to.g as int, seg.steps as int, k) as u8,
        b: step_channel(seg.from.b as int, seg.to.b as int, seg.steps as int, k) as u8,
    }
}

/// The entries of one segment, in order.
pub open spec fn segment_colors(seg: Segment) -> Seq<Color> {
    Seq::new(seg.steps as nat, |k: int| step_color(seg, k))
}

/// The entries of all segments, concatenated in segment order.
pub open spec fn build_spec(segs: Seq<Segment>) -> Seq<Color>
    decreases segs.len(),
{
    if segs.len() == 0 {
        Seq::empty()
    } else {
        build_spec(segs.drop_last()) + segment_colors(segs.last())
    }
}

proof fn lemma_scaled_level_bound(num: int, den: int)
    requires
        0 <= num,
        0 < den,
    ensures
        0 <= scaled_level(num, den) <= 255,
{
    assert(0 <= (255 * num) / den) by (nonlinear_arith)
        requires
            0 <= num,
            0 < den,
    ;
}

/// Scales one channel given in thousandths to `0..=255`.
fn scale_channel(level: u16) -> (v: u8)
    ensures
        v as int == scaled_level(level as int, 1000),
{
    let s: u32 = (level as u32) * 255 / 1000;
    if s > 255 {
        255
    } else {
        s as u8
    }
}

/// Converts a control color to a displayable color, channel by channel.
pub fn intensity_to_color(c: Intensity) -> (r: Color)
    ensures
        r == intensity_color(c),
{
    proof {
        lemma_scaled_level_bound(c.r as int, 1000);
        lemma_scaled_level_bound(c.g as int, 1000);
        lemma_scaled_level_bound(c.b as int, 1000);
    }
    Color { r: scale_channel(c.r), g: scale_channel(c.g), b: scale_channel(c.b) }
}

/// Channel `k` of a run of `steps` entries from `s` to `d`.
fn step_level(s: u16, d: u16, steps: usize, k: usize) -> (v: u8)
    requires
        k < steps,
    ensures
        v as int == step_channel(s as int, d as int, steps as int, k as int),
{
    let rest: u128 = (steps - k) as u128;
    assert((s as u128) * rest <= 65535 * 0x1_0000_0000_0000_0000) by (nonlinear_arith)
        requires
            s <= 65535,
            rest < 0x1_0000_0000_0000_0000,
    ;
    assert((d as u128) * (k as u128) <= 65535 * 0x1_0000_0000_0000_0000) by (nonlinear_arith)
        requires
            d <= 65535,
            k < 0x1_0000_0000_0000_0000,
    ;
    let num: u128 = (s as u128) * rest + (d as u128) * (k as u128);
    proof {
        assert(num <= 65535 * (steps as int)) by (nonlinear_arith)
            requires
                num == (s as int) * (rest as int) + (d as int) * (k as int),
                rest + k == steps,
                s <= 65535,
                d <= 65535,
                0 <= k,
                0 <= rest,
        ;
        assert(65535 * (steps as int) <= 65535 * 0x1_0000_0000_0000_0000) by (nonlinear_arith)
            requires
                steps <= usize::MAX,
                usize::MAX < 0x1_0000_0000_0000_0000,
        ;
        lemma_scaled_level_bound(num as int, 1000 * steps);
    }
    let den: u128 = 1000 * (steps as u128);
    let v: u128 = 255 * num / den;
    if v > 255 {
        255
    } else {
        v as u8
    }
}

/// The entries of one segment, in order.
fn color_step(seg: Segment) -> (p: Vec<Color>)
    ensures
        p@ == segment_colors(seg),
{
    let mut p: Vec<Color> = Vec::new();
    let mut k: usize = 0;
    while k < seg.steps
        invariant
            k <= seg.steps,
            p@ == segment_colors(seg).take(k as int),
        decreases seg.steps - k,
    {
        let c = Color {
            r: step_level(seg.from.r, seg.to.r, seg.steps, k),
            g: step_level(seg.from.g, seg.to.g, seg.steps, k),
            b: step_level(seg.from.b, seg.to.b, seg.steps, k),
        };
        p.push(c);
        k = k + 1;
        assert(p@ =~= segment_colors(seg).take(k as int));
    }
    assert(p@ =~= segment_colors(seg));
    p
}

/// Builds a palette's entries by interpolating each segment in turn.
pub fn build(segments: &Vec<Segment>) -> (p: Vec<Color>)
    ensures
        p@ == build_spec(segments@),
{
    let mut p: Vec<Color> = Vec::new();
    let mut i: usize = 0;
    while i < segments.len()
        invariant
            i <= segments@.len(),
            p@ == build_spec(segments@.take(i as int)),
        decreases segments@.len() - i,
    {
        let mut part = color_step(segments[i]);
        p.append(&mut part);
        assert(segments@.take(i + 1).drop_last() =~= segments@.take(i as int));
        i = i + 1;
    }
    assert(segments@.take(i as int) =~= segments@);
    p
}

pub open spec fn gray_colors() -> Seq<Color> {
    Seq::new(255, |i: int| Color { r: i as u8, g: i as u8, b: i as u8 })
}

pub open spec fn seg(from: Intensity, to: Intensity) -> Segment {
    Segment { from, to, steps: 100 }
}

pub open spec fn level(r: u16, g: u16, b: u16) -> Intensity {
    Intensity { r, g, b }
}

/// The cyclic ramp of the first color presets: dark blue, red, green,
/// yellow and back to dark blue.
pub open spec fn color1_segments() -> Seq<Segment> {
    seq![
        seg(level(0, 0, 700), level(1000, 0, 0)),
        seg(level(1000, 0, 0), level(0, 1000, 0)),
        seg(level(0, 1000, 0), level(1000, 1000, 0)),
        seg(level(1000, 1000, 0), level(0, 0, 700)),
    ]
}

/// The ramp of the second color presets: black, red, green, yellow, dark blue.
pub open spec fn color2_segments() -> Seq<Segment> {
    seq![
        seg(level(0, 0, 0), level(1000, 0, 0)),
        seg(level(1000, 0, 0), level(0, 1000, 0)),
        seg(level(0, 1000, 0), level(1000, 1000, 0)),
        seg(level(1000, 1000, 0), level(0, 0, 700)),
    ]
}

/// The entries of each preset.
pub open spec fn preset_colors(t: PaletteType) -> Seq<Color> {
    match t {
        PaletteType::BW => gray_colors(),
        PaletteType::Color1Mod | PaletteType::Color1Lin => build_spec(color1_segments()),
        PaletteType::Color2Mod | PaletteType::Color2Lin => build_spec(color2_segments()),
    }
}

/// The mode of each preset; the second linear preset indexes by modulus.
pub open spec fn preset_mode(t: PaletteType) -> ColorMode {
    match t {
        PaletteType::BW | PaletteType::Color1Lin => ColorMode::LinearScale,
        _ => ColorMode::Modulus,
    }
}

/// `p` is the preset `t`.
pub open spec fn is_preset(p: &Palette, t: PaletteType) -> bool {
    &&& p.palette_type == t
    &&& p.color_mode == preset_mode(t)
    &&& p.palette@ == preset_colors(t)
}

fn new_seg(fr: u16, fg: u16, fb: u16, tr: u16, tg: u16, tb: u16) -> (s: Segment)
    ensures
        s == seg(level(fr, fg, fb), level(tr, tg, tb)),
{
    Segment { from: Intensity { r: fr, g: fg, b: fb }, to: Intensity { r: tr, g: tg, b: tb }, steps: 100 }
}

fn color1_segment_list() -> (v: Vec<Segment>)
    ensures
        v@ == color1_segments(),
{
    let v = vec![
        new_seg(0, 0, 700, 1000, 0, 0),
        new_seg(1000, 0, 0, 0, 1000, 0),
        new_seg(0, 1000, 0, 1000, 1000, 0),
        new_seg(1000, 1000, 0, 0, 0, 700),
    ];
    assert(v@ =~= color1_segments());
    v
}

fn color2_segment_list() -> (v: Vec<Segment>)
    ensures
        v@ == color2_segments(),
{
    let v = vec![
        new_seg(0, 0, 0, 1000, 0, 0),
        new_seg(1000, 0, 0, 0, 1000, 0),
        new_seg(0, 1000, 0, 1000, 1000, 0),
        new_seg(1000, 1000, 0, 0, 0, 700),
    ];
    assert(v@ =~= color2_segments());
    v
}

/// The grayscale preset: the 255 grays from black upwards, scaled linearly.
pub fn new_bw() -> (p: Palette)
    ensures
        is_preset(&p, PaletteType::BW),
{
    let mut pd: Vec<Color> = Vec::new();
    let mut i: u32 = 0;
    while i < 255
        invariant
            i <= 255,
            pd@ == gray_colors().take(i as int),
        decreases 255 - i,
    {
        pd.push(Color { r: i as u8, g: i as u8, b: i as u8 });
        i = i + 1;
        assert(pd@ =~= gray_colors().take(i as int));
    }
    assert(pd@ =~= gray_colors());
    Palette { palette_type: PaletteType::BW, color_mode: ColorMode::LinearScale, palette: pd }
}

/// The first color ramp, indexed by modulus.
pub fn new_color1_mod() -> (p: Palette)
    ensures
        is_preset(&p, PaletteType::Color1Mod),
{
    let pd = build(&color1_segment_list());
    Palette { palette_type: PaletteType::Color1Mod, color_mode: ColorMode::Modulus, palette: pd }
}

/// The first color ramp, scaled linearly.
pub fn new_color1_lin() -> (p: Palette)
    ensures
        is_preset(&p, PaletteType::Color1Lin),
{
    let mut p = new_color1_mod();
    p.palette_type = PaletteType::Color1Lin;
    p.color_mode = ColorMode::LinearScale;
    p
}

/// The second color ramp, indexed by modulus.
pub fn new_color2_mod() -> (p: Palette)
    ensures
        is_preset(&p, PaletteType::Color2Mod),
{
    let pd = build(&color2_segment_list());
    Palette { palette_type: PaletteType::Color2Mod, color_mode: ColorMode::Modulus, palette: pd }
}

/// The second color ramp; like its sibling it indexes by modulus.
pub fn new_color2_lin() -> (p: Palette)
    ensures
        is_preset(&p, PaletteType::Color2Lin),
{
    let pd = build(&color2_segment_list());
    Palette { palette_type: PaletteType::Color2Lin, color_mode: ColorMode::Modulus, palette: pd }
}

impl PaletteType {
    /// Builds the preset that this value names.
    pub fn to_palette(&self) -> (p: Palette)
        ensures
            is_preset(&p, *self),
    {
        match *self {
            PaletteType::BW => new_bw(),
            PaletteType::Color1Mod => new_color1_mod(),
            PaletteType::Color2Mod => new_color2_mod(),
            PaletteType::Color1Lin => new_color1_lin(),
            PaletteType::Color2Lin => new_color2_lin(),
        }
    }

    /// The preset's name as shown to a user.
    pub fn name(&self) -> (s: &'static str)
        ensures
            s@ == match *self {
                PaletteType::BW => "Black and White"@,
                PaletteType::Color1Mod => "Color Modulus 1"@,
                PaletteType::Color2Mod => "Color Modulus 2"@,
                PaletteType::Color1Lin => "Color Linear 1"@,
                PaletteType::Color2Lin => "Color Linear 2"@,
            },
    {
        match *self {
            PaletteType::BW => "Black and White",
            PaletteType::Color1Mod => "Color Modulus 1",
            PaletteType::Color2Mod => "Color Modulus 2",
            PaletteType::Color1Lin => "Color Linear 1",
            PaletteType::Color2Lin => "Color Linear 2",
        }
    }
}

/// The palette entry, or black, that an escape count is drawn with.
pub open spec fn escape_color_spec(escape: int, max_iterations: int, colors: Seq<Color>, mode: ColorMode) -> Color {
    if escape >= max_iterations {
        black_spec()
    } else {
        match mode {
            ColorMode::LinearScale => colors[escape * (colors.len() - 1) / max_iterations],
            ColorMode::Modulus => colors[escape % (colors.len() as int)],
        }
    }
}

/// Maps an escape count to a color of `colors`: black for a point that did
/// not escape within `max_iterations`, else the entry that `mode` picks.
pub fn pick_color(escape: u32, max_iterations: u32, colors: &Vec<Color>, mode: ColorMode) -> (c:
    Color)
    requires
        escape < max_iterations ==> colors@.len() > 0,
    ensures
        c == escape_color_spec(escape as int, max_iterations as int, colors@, mode),
{
    if escape >= max_iterations {
        return black();
    }
    match mode {
        ColorMode::LinearScale => {
            let top: u64 = (colors.len() - 1) as u64;
            assert((escape as u64) * top <= 0xffff_ffff * 0xffff_ffff_ffff_ffff) by (nonlinear_arith)
                requires
                    escape <= 0xffff_ffff,
                    top <= 0xffff_ffff_ffff_ffff,
            ;
            let idx: u128 = (escape as u128) * (top as u128) / (max_iterations as u128);
            assert(idx <= top) by (nonlinear_arith)
                requires
                    idx == (escape as int) * (top as int) / (max_iterations as int),
                    escape < max_iterations,
                    0 <= top,
            ;
            colors[idx as usize]
        },
        ColorMode::Modulus => colors[(escape as usize) % colors.len()],
    }
}

/// Maps an escape count to a color under the palette's own mode.
pub fn color_of_escape(escape: u32, max_iterations: u32, palette: &Palette) -> (c: Color)
    requires
        escape < max_iterations ==> palette.palette@.len() > 0,
    ensures
        c == escape_color_spec(escape as int, max_iterations as int, palette.palette@, palette.color_mode),
{
    pick_color(escape, max_iterations, &palette.palette, palette.color_mode)
}

/// A palette built from one segment of one step holds exactly one entry: the
/// start color, scaled and clamped.
pub proof fn lemma_single_step_build(from: Intensity, to: Intensity)
    ensures
        build_spec(seq![Segment { from, to, steps: 1 }]) == seq![intensity_color(from)],
{
    let segs = seq![Segment { from, to, steps: 1 }];
    assert(segs.drop_last() =~= Seq::<Segment>::empty());
    assert(segs.last() == Segment { from, to, steps: 1 });
    assert(build_spec(segs.drop_last()) =~= Seq::<Color>::empty());
    assert(build_spec(segs) =~= seq![intensity_color(from)]);
}

/// Under the modulus mode an escape count equal to the palette's length is
/// drawn like an escape count of zero, where both escaped.
pub proof fn lemma_modulus_wraps(colors: Seq<Color>, max_iterations: int)
    requires
        colors.len() > 0,
        colors.len() < max_iterations,
    ensures
        escape_color_spec(colors.len() as int, max_iterations, colors, ColorMode::Modulus)
            == escape_color_spec(0, max_iterations, colors, ColorMode::Modulus),
{
    assert((colors.len() as int) % (colors.len() as int) == 0) by (nonlinear_arith)
        requires
            colors.len() > 0,
    ;
}

/// A point that used the whole iteration budget is drawn black, whatever the
/// mode and the palette.
pub proof fn lemma_inside_is_black(max_iterations: int, colors: Seq<Color>, mode: ColorMode)
    ensures
        escape_color_spec(max_iterations, max_iterations, colors, mode) == black_spec(),
{
}

} // verus!
