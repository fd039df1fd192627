//! The two filters behind the sharpness metrics, a discrete Laplacian and
//! the Sobel gradient, and the scores computed from their responses.
//!
//! Both filters read a 3x3 neighbourhood. At the border of the image the
//! nearest edge pixel is repeated, so that every pixel has a response.

use crate::grayscale::{GrayscaleImage, Raster, MAX_PIXELS};
use crate::stats::{population_mean, population_variance, MICROS_PER_UNIT};
use crate::text::{push_decimal, push_fixed2, push_fixed6, push_signed_fixed6, push_truth, verdict_text};
use vstd::prelude::*;

verus! {

/// A score or a threshold in millionths.
pub type Micros = u64;

/// The response of the Laplacian kernel
/// ```text
/// 0  1  0
/// 1 -4  1
/// 0  1  0
/// ```
/// at column `x` of row `y`, on the raw 0 to 255 scale.
pub open spec fn laplacian_at(r: Raster, x: int, y: int) -> int {
    r.at(x, y - 1) + r.at(x - 1, y) + r.at(x + 1, y) + r.at(x, y + 1) - 4 * r.at(x, y)
}

/// The response of the horizontal Sobel kernel
/// ```text
/// -1  0  1
/// -2  0  2
/// -1  0  1
/// ```
/// at column `x` of row `y`.
pub open spec fn sobel_x_at(r: Raster, x: int, y: int) -> int {
    (r.at(x + 1, y - 1) - r.at(x - 1, y - 1)) + 2 * (r.at(x + 1, y) - r.at(x - 1, y)) + (r.at(
        x + 1,
        y + 1,
    ) - r.at(x - 1, y + 1))
}

/// The response of the vertical Sobel kernel
/// ```text
/// -1 -2 -1
///  0  0  0
///  1  2  1
/// ```
/// at column `x` of row `y`.
pub open spec fn sobel_y_at(r: Raster, x: int, y: int) -> int {
    (r.at(x - 1, y + 1) - r.at(x - 1, y - 1)) + 2 * (r.at(x, y + 1) - r.at(x, y - 1)) + (r.at(
        x + 1,
        y + 1,
    ) - r.at(x + 1, y - 1))
}

/// The squared gradient magnitude at column `x` of row `y`.
pub open spec fn gradient_energy_at(r: Raster, x: int, y: int) -> int {
    sobel_x_at(r, x, y) * sobel_x_at(r, x, y) + sobel_y_at(r, x, y) * sobel_y_at(r, x, y)
}

/// The Laplacian response of the whole image, in row-major order.
pub open spec fn laplacian_response(r: Raster) -> Seq<i16> {
    Seq::new(r.area(), |i: int| laplacian_at(r, r.col(i), r.row(i)) as i16)
}

/// The squared gradient magnitudes of the first `count` pixels in row-major
/// order, added up.
pub open spec fn gradient_energy_total(r: Raster, count: int) -> int
    decreases count,
{
    if count <= 0 {
        0
    } else {
        gradient_energy_total(r, count - 1) + gradient_energy_at(
            r,
            r.col(count - 1),
            r.row(count - 1),
        )
    }
}

/// The variance of the Laplacian response, in millionths, rounded down.
pub open spec fn laplacian_variance_micros(r: Raster) -> int {
    crate::stats::variance_micros(laplacian_response(r))
}

/// The mean squared gradient magnitude, in millionths, rounded down.
pub open spec fn tenengrad_micros(r: Raster) -> int {
    (MICROS_PER_UNIT * gradient_energy_total(r, r.area() as int)) / (r.area() as int)
}

/// The intensities of a pixel and of its eight neighbours.
struct Window {
    nw: i32,
    n: i32,
    ne: i32,
    w: i32,
    c: i32,
    e: i32,
    sw: i32,
    s: i32,
    se: i32,
}

impl Window {
    /// This window holds the neighbourhood of column `x` of row `y`.
    spec fn is_around(self, r: Raster, x: int, y: int) -> bool {
        &&& self.nw == r.at(x - 1, y - 1)
        &&& self.n == r.at(x, y - 1)
        &&& self.ne == r.at(x + 1, y - 1)
        &&& self.w == r.at(x - 1, y)
        &&& self.c == r.at(x, y)
        &&& self.e == r.at(x + 1, y)
        &&& self.sw == r.at(x - 1, y + 1)
        &&& self.s == r.at(x, y + 1)
        &&& self.se == r.at(x + 1, y + 1)
    }
}

/// Reads the neighbourhood of column `x` of row `y`.
fn window(img: &GrayscaleImage, x: u32, y: u32) -> (win: Window)
    requires
        x < img@.width,
        y < img@.height,
    ensures
        win.is_around(img@, x as int, y as int),
{
    let width = img.width();
    let height = img.height();
    let left: u32 = if x == 0 {
        0
    } else {
        x - 1
    };
    let right: u32 = if x == width - 1 {
        x
    } else {
        x + 1
    };
    let up: u32 = if y == 0 {
        0
    } else {
        y - 1
    };
    let down: u32 = if y == height - 1 {
        y
    } else {
        y + 1
    };
    Window {
        nw: img.get_pixel(left, up) as i32,
        n: img.get_pixel(x, up) as i32,
        ne: img.get_pixel(right, up) as i32,
        w: img.get_pixel(left, y) as i32,
        c: img.get_pixel(x, y) as i32,
        e: img.get_pixel(right, y) as i32,
        sw: img.get_pixel(left, down) as i32,
        s: img.get_pixel(x, down) as i32,
        se: img.get_pixel(right, down) as i32,
    }
}

/// Applies the Laplacian kernel to every pixel.
pub fn laplacian_filter(img: &GrayscaleImage) -> (response: Vec<i16>)
    ensures
        response@ == laplacian_response(img@),
        0 < response@.len() <= MAX_PIXELS,
{
    let width = img.width();
    let height = img.height();
    let ghost r = img@;
    let mut response: Vec<i16> = Vec::new();
    let mut y: u32 = 0;
    while y < height
        invariant
            r == img@,
            r.valid(),
            width == r.width,
            height == r.height,
            y <= height,
            response@.len() == y * width,
            forall|i: int|
                0 <= i < response@.len() ==> response@[i] == laplacian_at(r, r.col(i), r.row(i)),
        decreases height - y,
    {
        let mut x: u32 = 0;
        while x < width
            invariant
                r == img@,
                r.valid(),
                width == r.width,
                height == r.height,
                y < height,
                x <= width,
                response@.len() == y * width + x,
                forall|i: int|
                    0 <= i < response@.len() ==> response@[i] == laplacian_at(
                        r,
                        r.col(i),
                        r.row(i),
                    ),
            decreases width - x,
        {
            let win = window(img, x, y);
            let v: i32 = win.n + win.w + win.e + win.s - 4 * win.c;
            proof {
                crate::grayscale::lemma_offset_in_range(r, x as int, y as int);
            }
            response.push(v as i16);
            x = x + 1;
        }
        assert((y + 1) * width == y * width + width) by (nonlinear_arith);
        y = y + 1;
    }
    assert(height * width == r.area()) by (nonlinear_arith)
        requires
            r.area() == width * height,
    ;
    assert(response@ =~= laplacian_response(r));
    proof {
        crate::grayscale::lemma_area_positive(r);
    }
    response
}

/// The variance of the Laplacian response of `img`, in millionths, and
/// whether it lies below `threshold`. A low variance means few strong edges.
pub fn analyze_blur_variance(img: &GrayscaleImage, threshold: Micros) -> (r: (Micros, bool))
    ensures
        r.0 == laplacian_variance_micros(img@),
        r.1 == (r.0 < threshold),
{
    let response = laplacian_filter(img);
    let variance = population_variance(&response).unwrap();
    (variance, variance < threshold)
}

/// Whether all pixels have one intensity.
pub open spec fn is_solid(r: Raster) -> bool {
    forall|i: int| 0 <= i < r.pixels.len() ==> #[trigger] r.pixels[i] == r.pixels[0]
}

/// In a solid image every neighbourhood holds one intensity.
proof fn lemma_solid_sample(r: Raster, x: int, y: int)
    requires
        r.valid(),
        is_solid(r),
    ensures
        r.at(x, y) == r.pixels[0],
{
    crate::grayscale::lemma_offset_in_range(r, r.clamp_col(x), r.clamp_row(y));
}

/// The gradient energy of a solid image is zero.
proof fn lemma_solid_energy(r: Raster, count: int)
    requires
        r.valid(),
        is_solid(r),
    ensures
        gradient_energy_total(r, count) == 0,
    decreases count,
{
    if count > 0 {
        lemma_solid_energy(r, count - 1);
        let x = r.col(count - 1);
        let y = r.row(count - 1);
        lemma_solid_sample(r, x - 1, y - 1);
        lemma_solid_sample(r, x, y - 1);
        lemma_solid_sample(r, x + 1, y - 1);
        lemma_solid_sample(r, x - 1, y);
        lemma_solid_sample(r, x + 1, y);
        lemma_solid_sample(r, x - 1, y + 1);
        lemma_solid_sample(r, x, y + 1);
        lemma_solid_sample(r, x + 1, y + 1);
        assert(sobel_x_at(r, x, y) == 0);
        assert(sobel_y_at(r, x, y) == 0);
    }
}

/// An image without any contrast scores zero on both metrics, whatever its
/// size and its intensity: it is blurry under every positive threshold.
pub proof fn lemma_solid_image_scores_zero(r: Raster)
    requires
        r.valid(),
        is_solid(r),
    ensures
        laplacian_variance_micros(r) == 0,
        tenengrad_micros(r) == 0,
{
    let response = laplacian_response(r);
    assert forall|i: int| 0 <= i < response.len() implies response[i] == 0 by {
        let x = r.col(i);
        let y = r.row(i);
        lemma_solid_sample(r, x, y - 1);
        lemma_solid_sample(r, x - 1, y);
        lemma_solid_sample(r, x + 1, y);
        lemma_solid_sample(r, x, y + 1);
        lemma_solid_sample(r, x, y);
    }
    crate::stats::lemma_zeros_have_no_variance(response);
    lemma_solid_energy(r, r.area() as int);
    crate::grayscale::lemma_area_positive(r);
    assert(0int / (r.area() as int) == 0);
}

/// The report on the Laplacian metric of an image: its dimensions, the mean
/// and the variance of the Laplacian response with six places, the
/// threshold with two, and the verdict, one line each.
pub open spec fn debug_report(r: Raster, threshold: Micros) -> Seq<char> {
    "[DEBUG] Image size: "@ + crate::text::decimal(r.width) + "x"@ + crate::text::decimal(r.height)
        + "\n[DEBUG] Mean: "@ + crate::text::signed_fixed6(
        crate::stats::mean_micros(laplacian_response(r)),
    ) + "\n[DEBUG] Variance: "@ + crate::text::fixed6(laplacian_variance_micros(r) as nat)
        + "\n[DEBUG] Threshold: "@ + crate::text::fixed2(threshold as nat) + "\n[DEBUG] Result: "@
        + crate::text::verdict(laplacian_variance_micros(r) < threshold) + "\n"@
}

/// The report on the Laplacian metric of `img` against `threshold`, ready to
/// be written.
pub fn debug_blur_analysis(img: &GrayscaleImage, threshold: Micros) -> (report: String)
    ensures
        report@ == debug_report(img@, threshold),
{
    let mut report = "[DEBUG] Image size: ".to_owned();
    push_decimal(&mut report, img.width() as u64);
    report.append("x");
    push_decimal(&mut report, img.height() as u64);
    let response = laplacian_filter(img);
    let mean = population_mean(&response).unwrap();
    let variance = population_variance(&response).unwrap();
    report.append("\n[DEBUG] Mean: ");
    push_signed_fixed6(&mut report, mean);
    report.append("\n[DEBUG] Variance: ");
    push_fixed6(&mut report, variance);
    report.append("\n[DEBUG] Threshold: ");
    push_fixed2(&mut report, threshold);
    report.append("\n[DEBUG] Result: ");
    report.append(verdict_text(variance < threshold));
    report.append("\n");
    report
}

/// The one-line summary of the Laplacian metric of an image: what the image
/// is, the verdict, and the variance with six places.
pub open spec fn summary_line(label: Seq<char>, variance: Micros, is_blurry: bool) -> Seq<char> {
    label + ": blurry="@ + crate::text::truth(is_blurry) + " variance="@ + crate::text::fixed6(
        variance as nat,
    ) + "\n"@
}

/// The one-line summary of the Laplacian metric of an image, ready to be
/// written.
pub fn analysis_summary(label: &str, variance: Micros, is_blurry: bool) -> (line: String)
    ensures
        line@ == summary_line(label@, variance, is_blurry),
{
    let mut line = label.to_owned();
    line.append(": blurry=");
    push_truth(&mut line, is_blurry);
    line.append(" variance=");
    push_fixed6(&mut line, variance);
    line.append("\n");
    line
}

/// One pixel's squared gradient magnitude is at most `2 * 1020^2`.
proof fn lemma_gradient_energy_bound(r: Raster, x: int, y: int)
    requires
        r.valid(),
    ensures
        0 <= gradient_energy_at(r, x, y) <= 2_080_800,
{
    let gx = sobel_x_at(r, x, y);
    let gy = sobel_y_at(r, x, y);
    assert(0 <= gx * gx <= 1_040_400) by (nonlinear_arith)
        requires
            -1020 <= gx <= 1020,
    ;
    assert(0 <= gy * gy <= 1_040_400) by (nonlinear_arith)
        requires
            -1020 <= gy <= 1020,
    ;
}

/// The gradient energy of `count` pixels is at most `count` times that of one.
proof fn lemma_gradient_total_bound(r: Raster, count: int)
    requires
        r.valid(),
        0 <= count,
    ensures
        0 <= gradient_energy_total(r, count) <= 2_080_800 * count,
    decreases count,
{
    if count > 0 {
        lemma_gradient_total_bound(r, count - 1);
        lemma_gradient_energy_bound(r, r.col(count - 1), r.row(count - 1));
    }
}

/// The mean squared Sobel gradient magnitude of `img`, in millionths. More
/// gradient energy means more edge content.
pub fn tenengrad_sharpness(img: &GrayscaleImage) -> (score: Micros)
    ensures
        score == tenengrad_micros(img@),
{
    let width = img.width();
    let height = img.height();
    let ghost r = img@;
    let mut energy: u64 = 0;
    let mut y: u32 = 0;
    while y < height
        invariant
            r == img@,
            r.valid(),
            width == r.width,
            height == r.height,
            y <= height,
            energy == gradient_energy_total(r, y * width),
        decreases height - y,
    {
        let mut x: u32 = 0;
        while x < width
            invariant
                r == img@,
                r.valid(),
                width == r.width,
                height == r.height,
                y < height,
                x <= width,
                energy == gradient_energy_total(r, y * width + x),
            decreases width - x,
        {
            let win = window(img, x, y);
            let gx: i32 = (win.ne - win.nw) + 2 * (win.e - win.w) + (win.se - win.sw);
            let gy: i32 = (win.sw - win.nw) + 2 * (win.s - win.n) + (win.se - win.ne);
            proof {
                crate::grayscale::lemma_offset_in_range(r, x as int, y as int);
                lemma_gradient_energy_bound(r, x as int, y as int);
                lemma_gradient_total_bound(r, y * width + x);
                assert(gx * gx >= 0) by (nonlinear_arith);
                assert(gy * gy >= 0) by (nonlinear_arith);
            }
            energy = energy + (gx * gx + gy * gy) as u64;
            x = x + 1;
        }
        assert((y + 1) * width == y * width + width) by (nonlinear_arith);
        y = y + 1;
    }
    proof {
        crate::grayscale::lemma_area_positive(r);
        assert(height * width == r.area()) by (nonlinear_arith)
            requires
                r.area() == width * height,
        ;
        lemma_gradient_total_bound(r, r.area() as int);
    }
    let area: u128 = (width as u128) * (height as u128);
    let scaled: u128 = (energy as u128) * (MICROS_PER_UNIT as u128);
    let mean: u128 = scaled / area;
    proof {
        let ceiling: int = 2_080_800int * 1_000_000int;
        assert(scaled <= ceiling * area) by (nonlinear_arith)
            requires
                scaled == energy * 1_000_000,
                energy <= 2_080_800 * area,
                ceiling == 2_080_800int * 1_000_000int,
        ;
        vstd::arithmetic::div_mod::lemma_div_is_ordered(scaled as int, ceiling * area, area as int);
        vstd::arithmetic::div_mod::lemma_div_by_multiple(ceiling, area as int);
    }
    mean as u64
}

} // verus!
