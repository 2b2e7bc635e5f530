//! Normalization of images into the model's canonical pixel layout.
//!
//! Every image, whether it arrives decoded or as encoded bytes, goes through
//! the same steps: it is scaled until it covers a square of the model's image
//! size and what overhangs is cropped away, so that any source gives exactly
//! that square; it is converted to 8-bit RGB and laid out channel first. The
//! result holds the 8-bit samples; their affine map onto [-1, 1] is floating
//! point work for the caller, before `ClipEmbedder::image_features`.
use vstd::prelude::*;

use candle_core::Tensor;
use image::imageops::FilterType;
use image::{DynamicImage, ImageFormat};

use crate::error::ClipError;

verus! {

#[verifier::external_type_specification]
#[verifier::external_body]
pub struct ExDynamicImage(image::DynamicImage);

#[verifier::external_type_specification]
#[verifier::external_body]
pub struct ExImageError(image::ImageError);

#[verifier::external_type_specification]
pub struct ExFilterType(image::imageops::FilterType);

#[verifier::external_type_specification]
#[verifier::external_body]
pub struct ExImageFormat(image::ImageFormat);

#[verifier::external_type_specification]
#[verifier::external_body]
pub struct ExTensor(candle_core::Tensor);

/// Number of colour channels of the canonical layout.
pub const CHANNELS: usize = 3;

/// The format that `image::guess_format` reads from the leading bytes, if
/// any.
pub uninterp spec fn guessed_format(bytes: Seq<u8>) -> Option<ImageFormat>;

/// The image that `image::load_from_memory_with_format` decodes from the
/// bytes in the given format, if any.
pub uninterp spec fn decoded_with(bytes: Seq<u8>, format: ImageFormat) -> Option<DynamicImage>;

/// The raster, 8-bit RGB in row-major channel-last order, that
/// `DynamicImage::resize_to_fill` to a square of side `size` followed by
/// `to_rgb8` gives.
pub uninterp spec fn filled_rgb8(img: DynamicImage, size: u32, filter: FilterType) -> Seq<u8>;

/// The samples of a `u8` tensor in row-major order of its axes.
pub uninterp spec fn u8_values(t: Tensor) -> Seq<u8>;

/// The image encoded bytes decode to: the format is guessed from the
/// leading bytes, and the bytes are decoded in that format.
pub open spec fn decoded_image(bytes: Seq<u8>) -> Option<DynamicImage> {
    match guessed_format(bytes) {
        Some(f) => decoded_with(bytes, f),
        None => None,
    }
}

/// Row-major offset of an index in a three-axis shape.
pub open spec fn offset3(s: Seq<usize>, i0: int, i1: int, i2: int) -> int {
    (i0 * s[1] + i1) * s[2] + i2
}

/// The index along axis `axis` of the source, for position (a0, a1, a2) of
/// the tensor whose axis `k` is axis `order.k` of the source.
pub open spec fn source_index(order: (usize, usize, usize), axis: usize, a0: int, a1: int, a2: int) -> int {
    if order.0 == axis {
        a0
    } else if order.1 == axis {
        a1
    } else {
        a2
    }
}

/// The samples of a three-axis tensor of shape `s` and samples `v`, after its
/// axes are permuted so that axis `k` of the result is axis `order.k`.
pub open spec fn permuted3(v: Seq<u8>, s: Seq<usize>, order: (usize, usize, usize)) -> Seq<u8> {
    let n0 = s[order.0 as int] as int;
    let n1 = s[order.1 as int] as int;
    let n2 = s[order.2 as int] as int;
    Seq::new(
        (n0 * n1 * n2) as nat,
        |i: int|
            {
                let a0 = i / (n1 * n2);
                let a1 = (i / n2) % n1;
                let a2 = i % n2;
                v[offset3(
                    s,
                    source_index(order, 0, a0, a1, a2),
                    source_index(order, 1, a0, a1, a2),
                    source_index(order, 2, a0, a1, a2),
                )]
            },
    )
}

/// A channel-last raster of the given height and width, laid out channel
/// first.
pub open spec fn channel_first(pixels: Seq<u8>, height: usize, width: usize) -> Seq<u8> {
    permuted3(pixels, shape3(height, width, CHANNELS), (2, 0, 1))
}

/// The samples of the canonical tensor of an image at side `size`: the image
/// resized to fill the square with the triangle filter, as 8-bit RGB, laid
/// out channel first.
pub open spec fn canonical_pixels(img: DynamicImage, size: u32) -> Seq<u8> {
    channel_first(filled_rgb8(img, size, FilterType::Triangle), size as usize, size as usize)
}

/// Width and height of an image, in pixels.
pub uninterp spec fn image_dims(img: DynamicImage) -> (u32, u32);

/// Length of each axis of a tensor.
pub uninterp spec fn tensor_shape(t: Tensor) -> Seq<usize>;

/// The shape of a tensor with three axes.
pub open spec fn shape3(a: usize, b: usize, c: usize) -> Seq<usize> {
    seq![a, b, c]
}

/// An 8-bit RGB raster in row-major, channel-last order.
pub struct RgbRaster {
    pub width: u32,
    pub height: u32,
    pub pixels: Vec<u8>,
}

impl RgbRaster {
    /// The buffer holds three samples for each pixel.
    pub open spec fn wf(&self) -> bool {
        self.pixels@.len() == CHANNELS * self.width * self.height
    }
}

/// Whether resizing a `width` x `height` image so that it covers a square of
/// side `size` keeps both scaled sides within `u32`: the longer side, scaled,
/// stays below `u32::MAX`.
pub open spec fn fill_fits(width: int, height: int, size: int) -> bool {
    &&& width * size <= (u32::MAX - 1) * height
    &&& height * size <= (u32::MAX - 1) * width
}

/// Whether an image of the given dimensions can be resized to fill a square
/// of side `size`: it has pixels, and its scaled longer side fits in `u32`.
pub open spec fn fillable(dims: (u32, u32), size: u32) -> bool {
    dims.0 > 0 && dims.1 > 0 && fill_fits(dims.0 as int, dims.1 as int, size as int)
}

/// Relies on `image::guess_format`: the format whose built-in signature the
/// leading bytes carry; every signature is non-empty, so an empty buffer has
/// none.
#[verifier::external_body]
fn guess_format(bytes: &[u8]) -> (r: Result<ImageFormat, image::ImageError>)
    ensures
        r is Ok <==> guessed_format(bytes@) is Some,
        r matches Ok(f) ==> guessed_format(bytes@) == Some(f),
        bytes@.len() == 0 ==> r is Err,
{
    image::guess_format(bytes)
}

/// Relies on `image::load_from_memory_with_format`: it decodes the bytes with
/// the decoder of the given format.
#[verifier::external_body]
fn decode_with_format(bytes: &[u8], format: ImageFormat) -> (r: Result<DynamicImage, image::ImageError>)
    ensures
        r is Ok <==> decoded_with(bytes@, format) is Some,
        r matches Ok(img) ==> decoded_with(bytes@, format) == Some(img),
{
    image::load_from_memory_with_format(bytes, format)
}

/// Relies on the `Display` impl of `image::ImageError` for its message.
#[verifier::external_body]
fn image_message(e: &image::ImageError) -> (r: String) {
    e.to_string()
}

/// Relies on `DynamicImage::width` and `DynamicImage::height`, in pixels.
#[verifier::external_body]
fn image_dimensions(img: &DynamicImage) -> (r: (u32, u32))
    ensures
        r == image_dims(*img),
{
    (img.width(), img.height())
}

/// Relies on `DynamicImage::resize_to_fill`, read back through `to_rgb8` and
/// `into_raw`: the image is scaled so that it covers the square and then
/// cropped to it, so for a non-empty source whose scaled sides fit in `u32`
/// the result is exactly `size` x `size`.
#[verifier::external_body]
fn resize_to_fill_rgb8(img: &DynamicImage, size: u32, filter: FilterType) -> (r: RgbRaster)
    requires
        size > 0,
        fillable(image_dims(*img), size),
    ensures
        r.wf(),
        r.width == size,
        r.height == size,
        r.pixels@ == filled_rgb8(*img, size, filter),
{
    let filled = img.resize_to_fill(size, size, filter).to_rgb8();
    RgbRaster { width: filled.width(), height: filled.height(), pixels: filled.into_raw() }
}

/// Relies on `Tensor::from_vec` on the CPU: with a full shape it takes the
/// buffer as it is, and on the CPU it does not fail.
#[verifier::external_body]
fn tensor_from_pixels(pixels: Vec<u8>, height: usize, width: usize, channels: usize)
    -> (r: Result<Tensor, candle_core::Error>)
    requires
        pixels@.len() == height * width * channels,
    ensures
        r is Ok,
        r matches Ok(t) ==> tensor_shape(t) == shape3(height, width, channels),
        r matches Ok(t) ==> u8_values(t) == pixels@,
{
    Tensor::from_vec(pixels, (height, width, channels), &candle_core::Device::Cpu)
}

/// Relies on `Tensor::permute` on a tensor of three axes: a permutation of
/// the axes is accepted, and axis `i` of the result is axis `order.i` of `t`.
#[verifier::external_body]
fn permute_axes(t: &Tensor, order: (usize, usize, usize))
    -> (r: Result<Tensor, candle_core::Error>)
    requires
        tensor_shape(*t).len() == 3,
        order.0 < 3 && order.1 < 3 && order.2 < 3,
        order.0 != order.1 && order.0 != order.2 && order.1 != order.2,
    ensures
        r is Ok,
        r matches Ok(p) ==> tensor_shape(p) == shape3(
            tensor_shape(*t)[order.0 as int],
            tensor_shape(*t)[order.1 as int],
            tensor_shape(*t)[order.2 as int],
        ),
        r matches Ok(p) ==> u8_values(p) == permuted3(u8_values(*t), tensor_shape(*t), order),
{
    t.permute(order)
}

/// Relies on `Tensor::dims`: the length of each axis.
#[verifier::external_body]
pub(crate) fn tensor_dims(t: &Tensor) -> (r: Vec<usize>)
    ensures
        r@ == tensor_shape(*t),
{
    t.dims().to_vec()
}

/// Decodes encoded image bytes (PNG, JPEG, ...), the format guessed from the
/// content. Bytes that do not decode are a `Decode` error.
pub fn decode_image(bytes: &[u8]) -> (r: Result<DynamicImage, ClipError>)
    ensures
        r is Ok <==> decoded_image(bytes@) is Some,
        r matches Ok(img) ==> decoded_image(bytes@) == Some(img),
        r matches Err(e) ==> e is Decode,
        bytes@.len() == 0 ==> r is Err,
{
    let format = match guess_format(bytes) {
        Ok(f) => f,
        Err(e) => return Err(ClipError::Decode(image_message(&e))),
    };
    match decode_with_format(bytes, format) {
        Ok(img) => Ok(img),
        Err(e) => Err(ClipError::Decode(image_message(&e))),
    }
}

/// Whether an image of the given dimensions can be resized to fill a square
/// of side `size`.
pub fn can_fill(width: u32, height: u32, size: u32) -> (r: bool)
    ensures
        r == fillable((width, height), size),
{
    let w = width as u128;
    let h = height as u128;
    let s = size as u128;
    let bound = (u32::MAX - 1) as u128;
    assert(w * s <= u32::MAX * u32::MAX) by (nonlinear_arith)
        requires
            w <= u32::MAX,
            s <= u32::MAX,
    ;
    assert(h * s <= u32::MAX * u32::MAX) by (nonlinear_arith)
        requires
            h <= u32::MAX,
            s <= u32::MAX,
    ;
    assert(bound * h <= u32::MAX * u32::MAX) by (nonlinear_arith)
        requires
            h <= u32::MAX,
            bound <= u32::MAX,
    ;
    assert(bound * w <= u32::MAX * u32::MAX) by (nonlinear_arith)
        requires
            w <= u32::MAX,
            bound <= u32::MAX,
    ;
    width > 0 && height > 0 && w * s <= bound * h && h * s <= bound * w
}

/// Resizes an image to fill a `size` x `size` square, with the triangle
/// filter, and converts it to 8-bit RGB. An image without pixels, or one so
/// elongated that its scaled longer side would not fit in `u32`, is refused.
pub fn fill_square(img: &DynamicImage, size: u32) -> (r: Result<RgbRaster, ClipError>)
    requires
        size > 0,
    ensures
        r is Ok <==> fillable(image_dims(*img), size),
        r matches Ok(raster) ==> raster.wf() && raster.width == size && raster.height == size,
        r matches Ok(raster) ==> raster.pixels@ == filled_rgb8(*img, size, FilterType::Triangle),
        r matches Err(e) ==> e is Decode,
{
    let (width, height) = image_dimensions(img);
    if !can_fill(width, height, size) {
        return Err(ClipError::Decode("the image cannot be resized to fill the square".to_string()));
    }
    Ok(resize_to_fill_rgb8(img, size, FilterType::Triangle))
}

/// Lays a raster out channel first, as a `u8` tensor of shape (channel,
/// height, width) on the CPU.
pub fn channel_first_tensor(raster: RgbRaster) -> (r: Tensor)
    requires
        raster.wf(),
    ensures
        tensor_shape(r) == shape3(CHANNELS, raster.height as usize, raster.width as usize),
        u8_values(r) == channel_first(raster.pixels@, raster.height as usize, raster.width as usize),
{
    let height = raster.height as usize;
    let width = raster.width as usize;
    proof {
        assert(raster.pixels@.len() == height * width * CHANNELS) by (nonlinear_arith)
            requires
                raster.pixels@.len() == CHANNELS * raster.width * raster.height,
                height == raster.height,
                width == raster.width,
        ;
    }
    let hwc = tensor_from_pixels(raster.pixels, height, width, CHANNELS).unwrap();
    permute_axes(&hwc, (2, 0, 1)).unwrap()
}

/// The canonical pixel tensor of a decoded image: resized to fill an
/// `image_size` square, 8-bit RGB, channel first.
pub fn load_image_from_decoded(img: &DynamicImage, image_size: u32) -> (r: Result<
    Tensor,
    ClipError,
>)
    requires
        image_size > 0,
    ensures
        r is Ok <==> fillable(image_dims(*img), image_size),
        r matches Ok(t) ==> tensor_shape(t) == shape3(CHANNELS, image_size as usize, image_size as usize),
        r matches Ok(t) ==> u8_values(t) == canonical_pixels(*img, image_size),
        r matches Err(e) ==> e is Decode,
{
    let raster = fill_square(img, image_size)?;
    Ok(channel_first_tensor(raster))
}

/// An image as the pipeline may receive it.
pub enum ImageSource<'a> {
    /// Already decoded.
    Decoded(&'a DynamicImage),
    /// Encoded bytes (PNG, JPEG, ...), the format guessed from the content.
    Encoded(&'a [u8]),
}

/// The decoded image a source stands for, if it has one.
pub open spec fn source_image(source: ImageSource) -> Option<DynamicImage> {
    match source {
        ImageSource::Decoded(img) => Some(*img),
        ImageSource::Encoded(bytes) => decoded_image(bytes@),
    }
}

/// Whether a source yields a canonical tensor at side `size`: it decodes, and
/// the image can fill the square.
pub open spec fn loads(source: ImageSource, size: u32) -> bool {
    source_image(source) matches Some(img) && fillable(image_dims(img), size)
}

/// The canonical pixel tensor of an image in either form: encoded bytes are
/// decoded first, and then both forms go through the same steps.
pub fn load_image(source: ImageSource, image_size: u32) -> (r: Result<Tensor, ClipError>)
    requires
        image_size > 0,
    ensures
        r is Ok <==> loads(source, image_size),
        r matches Ok(t) ==> tensor_shape(t) == shape3(CHANNELS, image_size as usize, image_size as usize),
        r matches Ok(t) ==> u8_values(t) == canonical_pixels(source_image(source)->Some_0, image_size),
        r matches Err(e) ==> e is Decode,
{
    match source {
        ImageSource::Decoded(img) => load_image_from_decoded(img, image_size),
        ImageSource::Encoded(bytes) => load_image_from_bytes(bytes, image_size),
    }
}

/// The canonical pixel tensor of an encoded image: the bytes are decoded and
/// then go through exactly the steps of `load_image_from_decoded`.
pub fn load_image_from_bytes(bytes: &[u8], image_size: u32) -> (r: Result<Tensor, ClipError>)
    requires
        image_size > 0,
    ensures
        r is Ok <==> loads(ImageSource::Encoded(bytes), image_size),
        r matches Ok(t) ==> tensor_shape(t) == shape3(CHANNELS, image_size as usize, image_size as usize),
        r matches Ok(t) ==> u8_values(t) == canonical_pixels(decoded_image(bytes@)->Some_0, image_size),
        r matches Err(e) ==> e is Decode,
        decoded_image(bytes@) is None ==> r is Err,
{
    let img = decode_image(bytes)?;
    load_image_from_decoded(&img, image_size)
}

} // verus!
