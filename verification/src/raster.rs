use std::io::Cursor;

use image::imageops::FilterType;
use image::{DynamicImage, ImageFormat};
use vstd::prelude::*;

use crate::format::CodecFormat;

// The three functions marked `external_body` below are the whole of what this
// library takes on trust: each makes one call into the `image` crate and
// converts what goes in and what comes out. As with every allocation in Rust,
// running out of memory is outside their contracts.

verus! {

/// `image::DynamicImage`, the codec library's decoded pixel buffer. Verus
/// sees nothing inside a value of it.
#[verifier::external_type_specification]
#[verifier::external_body]
pub struct ExDynamicImage(DynamicImage);

/// The resampling kernels that the scaling step can be built with.
#[derive(Clone, Copy, Debug, PartialEq, Eq, Structural)]
pub enum ResampleFilter {
    /// Nearest neighbour: fast, lower quality.
    Nearest,
    /// Gaussian: smoother, slower.
    Gaussian,
}

/// A decoded raster: the codec library's pixel buffer, and beside it the
/// width and height that the buffer was made with.
///
/// A raster is only ever made by the codec library, here in this module, and
/// its pixels are never written to afterwards.
pub struct RasterImage {
    width: u32,
    height: u32,
    pixels: DynamicImage,
}

impl RasterImage {
    /// The number of pixel columns.
    pub closed spec fn spec_width(&self) -> u32 {
        self.width
    }

    /// The number of pixel rows.
    pub closed spec fn spec_height(&self) -> u32 {
        self.height
    }

    /// The number of pixel columns.
    #[verifier::when_used_as_spec(spec_width)]
    pub fn width(&self) -> (w: u32)
        ensures
            w == self.spec_width(),
    {
        self.width
    }

    /// The number of pixel rows.
    #[verifier::when_used_as_spec(spec_height)]
    pub fn height(&self) -> (h: u32)
        ensures
            h == self.spec_height(),
    {
        self.height
    }
}

/// What the codec library makes of a buffer that is declared to be in
/// `format`: the decoded raster, or the text of the codec's error.
pub uninterp spec fn decoded_image(buffer: Seq<u8>, format: CodecFormat) -> Result<RasterImage, Seq<char>>;

/// The raster that the codec library's resize gives for `source` at the
/// target size `nwidth` by `nheight` under `filter`.
pub uninterp spec fn resampled_image(
    source: RasterImage,
    nwidth: u32,
    nheight: u32,
    filter: ResampleFilter,
) -> RasterImage;

/// What the codec library's encoder for `format` makes of `raster`: the
/// encoded bytes, or the text of the codec's error.
pub uninterp spec fn encoded_image(raster: RasterImage, format: CodecFormat) -> Result<Seq<u8>, Seq<char>>;

/// Calls `image::load_from_memory_with_format`.
///
/// Trusted: the codec's answer is a function of the buffer and the format
/// alone, named [`decoded_image`]. Nothing is claimed about which buffers the
/// codec accepts. The error is handed on as its `Display` text.
#[verifier::external_body]
pub(crate) fn codec_decode(buffer: &[u8], format: CodecFormat) -> (outcome: Result<RasterImage, String>)
    ensures
        match outcome {
            Ok(raster) => decoded_image(buffer@, format) == Ok::<RasterImage, Seq<char>>(raster),
            Err(reason) => decoded_image(buffer@, format) == Err::<RasterImage, Seq<char>>(reason@),
        },
{
    let codec = match format {
        CodecFormat::Jpeg => ImageFormat::Jpeg,
        CodecFormat::Png => ImageFormat::Png,
        CodecFormat::Gif => ImageFormat::Gif,
        CodecFormat::WebP => ImageFormat::WebP,
    };
    match image::load_from_memory_with_format(buffer, codec) {
        Ok(pixels) => Ok(RasterImage { width: pixels.width(), height: pixels.height(), pixels }),
        Err(error) => Err(error.to_string()),
    }
}

/// Calls `image::DynamicImage::resize_exact`.
///
/// Trusted: the new raster has exactly the width and height asked for,
/// zero included, whatever the aspect ratio of the source, and the call
/// returns for every target size; its pixels are a function of the source,
/// the target size and the filter, named [`resampled_image`].
#[verifier::external_body]
pub(crate) fn codec_resize(
    source: &RasterImage,
    nwidth: u32,
    nheight: u32,
    filter: ResampleFilter,
) -> (scaled: RasterImage)
    ensures
        scaled == resampled_image(*source, nwidth, nheight, filter),
        scaled.spec_width() == nwidth,
        scaled.spec_height() == nheight,
{
    let kernel = match filter {
        ResampleFilter::Nearest => FilterType::Nearest,
        ResampleFilter::Gaussian => FilterType::Gaussian,
    };
    let pixels = source.pixels.resize_exact(nwidth, nheight, kernel);
    RasterImage { width: pixels.width(), height: pixels.height(), pixels }
}

/// Calls `image::DynamicImage::write_to` on an in-memory cursor that starts
/// empty, and hands back everything the encoder wrote.
///
/// Trusted: the encoder's answer is a function of the raster and the format
/// alone, named [`encoded_image`]. Nothing is claimed about which rasters the
/// encoder accepts. The error is handed on as its `Display` text.
#[verifier::external_body]
pub(crate) fn codec_encode(raster: &RasterImage, format: CodecFormat) -> (outcome: Result<Vec<u8>, String>)
    ensures
        match outcome {
            Ok(bytes) => encoded_image(*raster, format) == Ok::<Seq<u8>, Seq<char>>(bytes@),
            Err(reason) => encoded_image(*raster, format) == Err::<Seq<u8>, Seq<char>>(reason@),
        },
{
    let codec = match format {
        CodecFormat::Jpeg => ImageFormat::Jpeg,
        CodecFormat::Png => ImageFormat::Png,
        CodecFormat::Gif => ImageFormat::Gif,
        CodecFormat::WebP => ImageFormat::WebP,
    };
    let mut sink = Cursor::new(Vec::new());
    match raster.pixels.write_to(&mut sink, codec) {
        Ok(()) => Ok(sink.into_inner()),
        Err(error) => Err(error.to_string()),
    }
}

} // verus!
