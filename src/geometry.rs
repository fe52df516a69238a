//! Output geometry of an encode: crop rectangles, percentage resizes and
//! aspect-preserving resizes, with the precedence that picks one of them.
use vstd::prelude::*;

verus! {

/// Denominator of a resize given in basis points (hundredths of a percent).
pub const BASIS_POINTS_PER_UNIT: u64 = 10000;

/// A crop rectangle as requested by a caller, before clamping.
#[derive(Clone, Copy, Debug, PartialEq, Eq, Structural)]
pub struct CropConfig {
    pub x: u32,
    pub y: u32,
    pub width: u32,
    pub height: u32,
}

/// The single transform applied before encoding.
#[derive(Clone, Copy, Debug, PartialEq, Eq, Structural)]
pub enum GeometrySpec {
    /// Cut out a rectangle, clamped into the source.
    Crop(CropConfig),
    /// Scale both sides by a factor given in basis points (5000 is half size).
    Percent(u32),
    /// Fit to the requested size, keeping the source's aspect ratio.
    Dimensions(u32, u32),
    /// Leave the image as it is.
    NoOp,
}

/// `n * num / den` rounded to the nearest integer, halves rounded up;
/// zero when `den` is zero.
pub open spec fn scale_round(n: int, num: int, den: int) -> int {
    if den <= 0 {
        0
    } else {
        (2 * n * num + den) / (2 * den)
    }
}

/// One side scaled by `bp` basis points.
pub open spec fn percent_side(side: int, bp: int) -> int {
    scale_round(side, bp, BASIS_POINTS_PER_UNIT as int)
}

/// Output size of an aspect-preserving resize: a landscape or square source
/// keeps the requested width, a portrait source keeps the requested height,
/// and the other side follows the source's ratio.
pub open spec fn fit_size(src_w: int, src_h: int, w: int, h: int) -> (int, int) {
    if src_w >= src_h {
        (w, scale_round(w, src_h, src_w))
    } else {
        (scale_round(h, src_w, src_h), h)
    }
}

/// The region that a crop request selects: the origin is clamped into the
/// source and the size is cut to what remains right of and below it.
pub open spec fn crop_region(src_w: int, src_h: int, c: CropConfig) -> (int, int, int, int) {
    let x = if c.x <= src_w { c.x as int } else { src_w };
    let y = if c.y <= src_h { c.y as int } else { src_h };
    let w = if c.width <= src_w - x { c.width as int } else { src_w - x };
    let h = if c.height <= src_h - y { c.height as int } else { src_h - y };
    (x, y, w, h)
}

/// Size of the image that `spec` makes out of a `src_w` by `src_h` source.
pub open spec fn output_size(src_w: int, src_h: int, spec: GeometrySpec) -> (int, int) {
    match spec {
        GeometrySpec::Crop(c) => {
            let r = crop_region(src_w, src_h, c);
            (r.2, r.3)
        },
        GeometrySpec::Percent(bp) => (percent_side(src_w, bp as int), percent_side(src_h, bp as int)),
        GeometrySpec::Dimensions(w, h) => fit_size(src_w, src_h, w as int, h as int),
        GeometrySpec::NoOp => (src_w, src_h),
    }
}

/// The transform chosen from optional request fields: a crop if one is
/// given, else a positive percentage, else a size with both sides positive,
/// else none.
pub open spec fn select_spec(width: u32, height: u32, percent_bp: u32, crop: Option<CropConfig>) -> GeometrySpec {
    match crop {
        Some(c) => GeometrySpec::Crop(c),
        None => if percent_bp > 0 {
            GeometrySpec::Percent(percent_bp)
        } else if width > 0 && height > 0 {
            GeometrySpec::Dimensions(width, height)
        } else {
            GeometrySpec::NoOp
        },
    }
}

/// Picks the one transform of an encode request.
pub fn select_geometry(width: u32, height: u32, percent_bp: u32, crop: Option<CropConfig>) -> (r: GeometrySpec)
    ensures
        r == select_spec(width, height, percent_bp, crop),
{
    match crop {
        Some(c) => GeometrySpec::Crop(c),
        None => if percent_bp > 0 {
            GeometrySpec::Percent(percent_bp)
        } else if width > 0 && height > 0 {
            GeometrySpec::Dimensions(width, height)
        } else {
            GeometrySpec::NoOp
        },
    }
}

proof fn lemma_scale_round_bounds(n: int, num: int, den: int)
    requires
        n >= 0,
        0 <= num <= den,
    ensures
        0 <= scale_round(n, num, den) <= n,
{
    if den > 0 {
        assert(0 <= 2 * n * num) by (nonlinear_arith)
            requires n >= 0, num >= 0;
        assert(2 * n * num + den <= (2 * n + 1) * den) by (nonlinear_arith)
            requires n >= 0, 0 <= num <= den;
        assert((2 * n * num + den) / (2 * den) <= n) by (nonlinear_arith)
            requires 2 * n * num + den <= (2 * n + 1) * den, den > 0;
        assert((2 * n * num + den) / (2 * den) >= 0) by (nonlinear_arith)
            requires 2 * n * num + den >= 0, den > 0;
    }
}

/// Computes `scale_round(n, num, den)` when the result is known to fit.
fn scale_round_exec(n: u32, num: u32, den: u32) -> (r: u64)
    ensures
        r == scale_round(n as int, num as int, den as int),
{
    if den == 0 {
        0
    } else {
        assert((n as int) * (num as int) <= 0xffff_fffe_0000_0001int) by (nonlinear_arith)
            requires n <= 0xffff_ffffint, num <= 0xffff_ffffint, n >= 0, num >= 0;
        let prod: u128 = (n as u128) * (num as u128);
        let q: u128 = (2 * prod + den as u128) / (2 * den as u128);
        assert(q <= prod + 1) by (nonlinear_arith)
            requires q == (2 * prod + den) / (2 * den), den >= 1, prod >= 0;
        assert(2 * prod == 2 * (n as int) * (num as int)) by (nonlinear_arith)
            requires prod == (n as int) * (num as int);
        q as u64
    }
}

/// Output size of an aspect-preserving resize of a `src_w` by `src_h` image
/// to a requested `width` by `height`: one requested side is kept exactly.
pub fn calc_dimension(src_w: u32, src_h: u32, width: u32, height: u32) -> (r: (u32, u32))
    ensures
        r.0 as int == fit_size(src_w as int, src_h as int, width as int, height as int).0,
        r.1 as int == fit_size(src_w as int, src_h as int, width as int, height as int).1,
        src_w >= src_h ==> r.0 == width && r.1 <= width,
        src_w < src_h ==> r.1 == height && r.0 <= height,
{
    if src_w >= src_h {
        proof { lemma_scale_round_bounds(width as int, src_h as int, src_w as int); }
        let h = scale_round_exec(width, src_h, src_w);
        (width, h as u32)
    } else {
        proof { lemma_scale_round_bounds(height as int, src_w as int, src_h as int); }
        let w = scale_round_exec(height, src_w, src_h);
        (w as u32, height)
    }
}

/// Output size of a resize by `percent_bp` basis points; each side is
/// `round(side * percent_bp / 10000)`, which may not fit a `u32`.
pub fn resize_percent_dimensions(src_w: u32, src_h: u32, percent_bp: u32) -> (r: (u64, u64))
    ensures
        r.0 as int == percent_side(src_w as int, percent_bp as int),
        r.1 as int == percent_side(src_h as int, percent_bp as int),
{
    let w = scale_round_exec(src_w, percent_bp, 10000);
    let h = scale_round_exec(src_h, percent_bp, 10000);
    (w, h)
}

/// The crop request clamped into a `src_w` by `src_h` source: origin and
/// size each clamped to the source's sides, as the caller hands them on.
pub fn clamp_crop(src_w: u32, src_h: u32, c: CropConfig) -> (r: CropConfig)
    ensures
        r.x == if c.x <= src_w { c.x } else { src_w },
        r.y == if c.y <= src_h { c.y } else { src_h },
        r.width == if c.width <= src_w { c.width } else { src_w },
        r.height == if c.height <= src_h { c.height } else { src_h },
        crop_region(src_w as int, src_h as int, r) == crop_region(src_w as int, src_h as int, c),
{
    CropConfig {
        x: if c.x <= src_w { c.x } else { src_w },
        y: if c.y <= src_h { c.y } else { src_h },
        width: if c.width <= src_w { c.width } else { src_w },
        height: if c.height <= src_h { c.height } else { src_h },
    }
}

/// A crop never reaches outside its source, whatever rectangle is asked for.
pub proof fn crop_stays_in_bounds(src_w: u32, src_h: u32, c: CropConfig)
    ensures
        ({
            let r = crop_region(src_w as int, src_h as int, c);
            &&& 0 <= r.0 && 0 <= r.1 && 0 <= r.2 && 0 <= r.3
            &&& r.0 + r.2 <= src_w
            &&& r.1 + r.3 <= src_h
        }),
{
}

/// At half size each side is the source side halved, halves rounded up.
pub proof fn half_size_rounds_up(side: nat)
    ensures
        percent_side(side as int, 5000) == (side + 1) / 2,
{
    assert((2 * side * 5000 + 10000) / 20000 == (side + 1) / 2) by (nonlinear_arith);
}

/// An aspect-preserving resize of a landscape or square source keeps the
/// requested width and derives the height from the source's ratio.
pub proof fn landscape_keeps_width(src_w: u32, src_h: u32, width: u32, height: u32)
    requires
        src_w >= src_h,
    ensures
        fit_size(src_w as int, src_h as int, width as int, height as int).0 == width,
        fit_size(src_w as int, src_h as int, width as int, height as int).1
            == scale_round(width as int, src_h as int, src_w as int),
{
}

} // verus!
