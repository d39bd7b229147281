//! The input tensor of the classifier.
//!
//! The tensor has the shape `1 x 3 x H x W`: one plane per colour channel, each
//! plane row by row. Its elements are the normalised samples of the image,
//! written as single-precision numbers, least significant byte first.

use vstd::arithmetic::div_mod::lemma_fundamental_div_mod_converse;
use vstd::prelude::*;

use crate::codec::{encoded, f32_vec_to_bytes};
use crate::decode::decode_image;
use crate::error::PipelineError;
use crate::grid::{GridView, PixelGrid};
use crate::normalize::{normalize, normalized, CHANNELS};

verus! {

/// The samples that the triangle filter of `image` gives when it resamples an
/// image of `width` by `height` pixels, three 8-bit samples each, to
/// `new_width` by `new_height` pixels.
pub uninterp spec fn triangle_resized(
    width: u32,
    height: u32,
    samples: Seq<u8>,
    new_width: u32,
    new_height: u32,
) -> Seq<u8>;

/// `image::DynamicImage::resize_exact` with `FilterType::Triangle`, on an image
/// of three 8-bit samples per pixel. The samples it returns depend on the
/// arguments alone and go by the name `triangle_resized`; there are three for
/// each pixel of the new size. The resampler allocates an intermediate image of
/// `width` by `new_height` pixels at 16 bytes each, and the result; it panics
/// where either is more than a vector can hold, so such sizes are left out.
#[verifier::external_body]
fn resize_exact(width: u32, height: u32, samples: Vec<u8>, new_width: u32, new_height: u32) -> (out: Vec<u8>)
    requires
        samples.len() == 3 * (width * height),
        16 * (width * new_height) <= isize::MAX,
        3 * (new_width * new_height) <= isize::MAX,
    ensures
        out@ == triangle_resized(width, height, samples@, new_width, new_height),
        out.len() == 3 * (new_width * new_height),
{
    let source = image::RgbImage::from_raw(width, height, samples).unwrap();
    image::DynamicImage::ImageRgb8(source)
        .resize_exact(new_width, new_height, image::imageops::FilterType::Triangle)
        .into_rgb8()
        .into_raw()
}

/// Whether an image that is `source_width` pixels wide can be resampled to
/// `width` by `height` pixels: neither may be zero, and the resampler's
/// intermediate image (16 bytes for each of `source_width * height` pixels) and
/// the tensor (12 bytes for each of `width * height` pixels) must each fit in
/// what a vector can hold.
pub open spec fn valid_target(source_width: nat, height: u32, width: u32) -> bool {
    &&& height > 0
    &&& width > 0
    &&& 16 * (source_width * height) <= isize::MAX
    &&& 12 * (width * height) <= isize::MAX
}

/// `grid` resampled to `width` by `height` pixels.
pub open spec fn resampled(grid: GridView, height: u32, width: u32) -> GridView {
    GridView {
        width: width as nat,
        height: height as nat,
        samples: triangle_resized(grid.width as u32, grid.height as u32, grid.samples, width, height),
    }
}

/// The elements of the tensor of `grid`: element `i` belongs to channel
/// `i / (width * height)` and to the pixel at position `i % (width * height)`
/// in row-major order.
pub open spec fn planar(grid: GridView) -> Seq<u32> {
    let area = grid.area() as int;
    Seq::new(
        3 * grid.area(),
        |i: int| normalized(i / area, grid.samples[3 * (i % area) + i / area]),
    )
}

/// The bytes of the tensor of `grid`.
pub open spec fn tensor_bytes(grid: GridView) -> Seq<u8> {
    encoded(planar(grid))
}

/// A position inside a plane determines its channel and its pixel.
proof fn lemma_plane_position(area: int, channel: int, pixel: int)
    requires
        0 <= channel,
        0 <= pixel < area,
    ensures
        (channel * area + pixel) / area == channel,
        (channel * area + pixel) % area == pixel,
{
    lemma_fundamental_div_mod_converse(channel * area + pixel, area, channel, pixel);
}

/// The element for channel `channel`, row `y` and column `x` stands in plane
/// `channel` at row `y`, column `x`, and is the normalised sample of that
/// channel of that pixel.
pub proof fn lemma_planar_layout(grid: GridView, x: int, y: int, channel: int)
    requires
        grid.well_formed(),
        0 <= x < grid.width,
        0 <= y < grid.height,
        0 <= channel < 3,
    ensures
        0 <= channel * grid.area() + y * grid.width + x < planar(grid).len(),
        planar(grid)[channel * grid.area() + y * grid.width + x] == normalized(
            channel,
            grid.sample(x, y, channel),
        ),
{
    let width = grid.width as int;
    let height = grid.height as int;
    let area = width * height;
    let pixel = y * width + x;
    assert(0 <= pixel < area) by (nonlinear_arith)
        requires
            0 <= x < width,
            0 <= y < height,
            pixel == y * width + x,
            area == width * height,
    ;
    assert(0 <= channel * area + pixel < 3 * area) by (nonlinear_arith)
        requires
            0 <= channel < 3,
            0 <= pixel < area,
    ;
    lemma_plane_position(area, channel, pixel);
}

/// The shape of the input tensor for a target of `height` by `width` pixels:
/// one image, three channels, `height` rows, `width` columns.
pub fn tensor_dimensions(height: u32, width: u32) -> (out: Vec<u32>)
    ensures
        out@ == seq![1u32, 3u32, height, width],
{
    let mut out: Vec<u32> = Vec::with_capacity(4);
    out.push(1);
    out.push(3);
    out.push(height);
    out.push(width);
    assert(out@ =~= seq![1u32, 3u32, height, width]);
    out
}

/// Lays the normalised samples of `grid` out as the bytes of the input tensor.
pub fn tensor_from_grid(grid: &PixelGrid) -> (out: Vec<u8>)
    ensures
        out@ == tensor_bytes(grid@),
        out.len() == 12 * grid@.area(),
{
    let samples = grid.samples();
    let ghost view = grid@;
    let area: usize = samples.len() / 3;
    assert(area == view.area());
    let mut words: Vec<u32> = Vec::new();
    let mut channel: usize = 0;
    while channel < CHANNELS
        invariant
            view == grid@,
            samples@ == view.samples,
            samples.len() == 3 * area,
            area == view.area(),
            channel <= CHANNELS,
            words.len() == channel * area,
            forall|i: int| 0 <= i < words.len() ==> words[i] == planar(view)[i],
        decreases CHANNELS - channel,
    {
        let mut pixel: usize = 0;
        while pixel < area
            invariant
                view == grid@,
                samples@ == view.samples,
                samples.len() == 3 * area,
                area == view.area(),
                channel < CHANNELS,
                pixel <= area,
                words.len() == channel * area + pixel,
                forall|i: int| 0 <= i < words.len() ==> words[i] == planar(view)[i],
            decreases area - pixel,
        {
            proof {
                lemma_plane_position(area as int, channel as int, pixel as int);
                assert(channel * area + pixel < 3 * area) by (nonlinear_arith)
                    requires
                        channel < 3,
                        pixel < area,
                ;
            }
            words.push(normalize(channel, samples[3 * pixel + channel]));
            pixel += 1;
        }
        channel += 1;
        assert(words.len() == channel * area) by (nonlinear_arith)
            requires
                words.len() == (channel - 1) * area + area,
        ;
    }
    assert(words@ =~= planar(view));
    f32_vec_to_bytes(&words)
}

fn fits(source_width: u32, height: u32, width: u32) -> (out: bool)
    ensures
        out == (16 * (source_width * height) <= isize::MAX && 12 * (width * height) <= isize::MAX),
{
    assert(source_width * height <= 0xFFFF_FFFF * 0xFFFF_FFFF) by (nonlinear_arith)
        requires
            0 <= source_width <= 0xFFFF_FFFF,
            0 <= height <= 0xFFFF_FFFF,
    ;
    assert(width * height <= 0xFFFF_FFFF * 0xFFFF_FFFF) by (nonlinear_arith)
        requires
            0 <= width <= 0xFFFF_FFFF,
            0 <= height <= 0xFFFF_FFFF,
    ;
    let intermediate: u64 = (source_width as u64) * (height as u64);
    let target: u64 = (width as u64) * (height as u64);
    let limit: u128 = isize::MAX as u128;
    16 * (intermediate as u128) <= limit && 12 * (target as u128) <= limit
}

/// Resamples `grid` to `width` by `height` pixels and lays it out as the bytes
/// of the `1 x 3 x height x width` input tensor.
///
/// Fails with `Shape` exactly when the target is not valid for the grid
/// (`valid_target`).
pub fn encode_tensor(grid: PixelGrid, height: u32, width: u32) -> (out: Result<Vec<u8>, PipelineError>)
    ensures
        match out {
            Ok(bytes) => {
                &&& valid_target(grid@.width, height, width)
                &&& bytes@ == tensor_bytes(resampled(grid@, height, width))
                &&& bytes.len() == 12 * (width * height)
            },
            Err(e) => !valid_target(grid@.width, height, width) && e == (PipelineError::Shape {
                height,
                width,
            }),
        },
{
    let ghost view = grid@;
    let (source_width, source_height, samples) = grid.into_parts();
    if height == 0 || width == 0 || !fits(source_width, height, width) {
        return Err(PipelineError::Shape { height, width });
    }
    let resized = resize_exact(source_width, source_height, samples, width, height);
    match PixelGrid::new(width, height, resized) {
        Some(target) => {
            assert(target@ == resampled(view, height, width));
            Ok(tensor_from_grid(&target))
        },
        // Not taken: the resampler returns three samples for each pixel.
        None => Err(PipelineError::Shape { height, width }),
    }
}

/// Decodes an image file, resamples it to `width` by `height` pixels and lays
/// it out as the bytes of the input tensor.
///
/// A target without rows or columns fails with `Shape`, whatever the file
/// holds. Otherwise a file that does not decode fails with `Decode`, and a
/// target that is not valid for the decoded image fails with `Shape`. Success
/// yields the tensor of some well-formed grid, the decoded image, resampled to
/// the target.
pub fn image_to_tensor(image_bytes: Vec<u8>, height: u32, width: u32) -> (out: Result<Vec<u8>, PipelineError>)
    ensures
        height == 0 || width == 0 ==> out == Err::<Vec<u8>, PipelineError>(
            PipelineError::Shape { height, width },
        ),
        match out {
            Ok(bytes) => exists|grid: GridView|
                {
                    &&& grid.well_formed()
                    &&& valid_target(grid.width, height, width)
                    &&& bytes@ == #[trigger] tensor_bytes(resampled(grid, height, width))
                    &&& bytes.len() == 12 * (width * height)
                },
            Err(e) => e == PipelineError::Decode || (e == (PipelineError::Shape { height, width }) && (
            height == 0 || width == 0 || exists|grid: GridView|
                grid.well_formed() && !#[trigger] valid_target(grid.width, height, width))),
        },
{
    if height == 0 || width == 0 {
        return Err(PipelineError::Shape { height, width });
    }
    match decode_image(image_bytes.as_slice()) {
        Ok(grid) => {
            let ghost view = grid@;
            let out = encode_tensor(grid, height, width);
            proof {
                if out is Ok {
                    assert(out->Ok_0@ == tensor_bytes(resampled(view, height, width)));
                } else {
                    assert(view.well_formed() && !valid_target(view.width, height, width));
                }
            }
            out
        },
        Err(e) => Err(e),
    }
}

} // verus!
