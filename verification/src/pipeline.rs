use vstd::prelude::*;

use crate::error::{ErrorModel, PipelineError};
use crate::format::{format_for_hint, is_format_token, CodecFormat};
use crate::raster::{decoded_image, encoded_image, RasterImage};
use crate::resolver::{variant_of, ImageInformation, ImageResolver};
use crate::tier::{is_resolution_token, resolution_for_hint, ImageResolution};

verus! {

/// What one invocation returns: the encoded bytes of the selected variant,
/// and that variant's size in pixels.
#[derive(Debug, PartialEq, Eq)]
pub struct ResultImage {
    pub image: Vec<u8>,
    pub width: u32,
    pub height: u32,
}

/// The mathematical value of a [`ResultImage`].
pub struct ResultModel {
    pub image: Seq<u8>,
    pub width: u32,
    pub height: u32,
}

impl View for ResultImage {
    type V = ResultModel;

    open spec fn view(&self) -> ResultModel {
        ResultModel { image: self.image@, width: self.width, height: self.height }
    }
}

impl ResultImage {
    /// Packages encoded bytes with the dimensions that the metadata carries.
    /// The height is the metadata's height: a payload for a raster that is
    /// not square does not repeat its width.
    pub fn from_variant(image: Vec<u8>, information: &ImageInformation) -> (payload: ResultImage)
        ensures
            payload@ == (ResultModel {
                image: image@,
                width: information.width,
                height: information.height,
            }),
    {
        ResultImage { image, width: information.width, height: information.height }
    }
}

/// What the pipeline makes of a decoded source: the encoding of the tier's
/// variant in `format`, with the source's dimensions divided by the tier's
/// divisor, or the encoder's failure.
pub open spec fn variant_outcome(
    source: RasterImage,
    format: CodecFormat,
    tier: ImageResolution,
) -> Result<ResultModel, ErrorModel> {
    let size = tier.spec_scaled_dimensions(source.spec_width(), source.spec_height());
    match encoded_image(variant_of(source, tier), format) {
        Ok(bytes) => Ok(ResultModel { image: bytes, width: size.0, height: size.1 }),
        Err(reason) => Err(ErrorModel::EncodeFailure { reason }),
    }
}

/// What an invocation returns, as a function of the buffer, the format hint
/// and the resolution hint. The steps fail in this order: an unsupported
/// format, a decode failure, an encode failure. The label plays no part.
pub open spec fn pipeline_outcome(buffer: Seq<u8>, mime: Seq<char>, resolution: Seq<char>) -> Result<
    ResultModel,
    ErrorModel,
> {
    match format_for_hint(mime) {
        None => Err(ErrorModel::UnsupportedFormat),
        Some(format) => match decoded_image(buffer, format) {
            Err(reason) => Err(ErrorModel::DecodeFailure { reason }),
            Ok(source) => variant_outcome(source, format, resolution_for_hint(resolution)),
        },
    }
}

/// Decodes `image` as the format that `mime` names, and returns the variant
/// that `resolution` names, encoded in that same format, with its size.
/// `name` is attached to the metadata and to nothing else.
pub fn process_image(image: &[u8], mime: &str, name: &str, resolution: &str) -> (outcome: Result<
    ResultImage,
    PipelineError,
>)
    ensures
        match pipeline_outcome(image@, mime@, resolution@) {
            Ok(payload) => outcome is Ok && outcome->Ok_0@ == payload,
            Err(failure) => outcome is Err && outcome->Err_0@ == failure,
        },
{
    let resolution_value = ImageResolution::from_hint(resolution);
    let mut image_resolver = match ImageResolver::new(image, mime, name) {
        Ok(resolver) => resolver,
        Err(failure) => {
            return Err(failure);
        },
    };
    let vector_image = match image_resolver.transform_image_to_unit8(resolution_value) {
        Ok(bytes) => bytes,
        Err(failure) => {
            return Err(failure);
        },
    };
    Ok(ResultImage::from_variant(vector_image, image_resolver.information()))
}

/// Every accepted format token names its format, and the tokens are told
/// apart: `jpeg` and `jpg` name JPEG, `png` PNG, `gif` GIF, `webp` WebP.
pub proof fn accepted_tokens_name_their_format()
    ensures
        format_for_hint("jpeg"@) == Some(CodecFormat::Jpeg),
        format_for_hint("jpg"@) == Some(CodecFormat::Jpeg),
        format_for_hint("png"@) == Some(CodecFormat::Png),
        format_for_hint("gif"@) == Some(CodecFormat::Gif),
        format_for_hint("webp"@) == Some(CodecFormat::WebP),
{
    reveal_strlit("jpeg");
    reveal_strlit("jpg");
    reveal_strlit("png");
    reveal_strlit("gif");
    reveal_strlit("webp");
    assert("jpg"@[0] == 'j' && "png"@[0] == 'p' && "gif"@[0] == 'g');
    assert("jpeg"@[0] == 'j' && "webp"@[0] == 'w');
}

/// A hint that is none of the accepted tokens makes every invocation fail
/// as an unsupported format, whatever the buffer and the resolution are.
pub proof fn unsupported_hint_fails(buffer: Seq<u8>, mime: Seq<char>, resolution: Seq<char>)
    requires
        !is_format_token(mime),
    ensures
        pipeline_outcome(buffer, mime, resolution) == Err::<ResultModel, ErrorModel>(
            ErrorModel::UnsupportedFormat,
        ),
{
}

/// The four resolution tokens name their tiers: `high` the source, `half`
/// a half, `med` a quarter, `low` a fifth.
pub proof fn resolution_tokens_name_their_tier()
    ensures
        resolution_for_hint("high"@) == ImageResolution::High,
        resolution_for_hint("half"@) == ImageResolution::Half,
        resolution_for_hint("med"@) == ImageResolution::Min,
        resolution_for_hint("low"@) == ImageResolution::Lowest,
{
    reveal_strlit("high");
    reveal_strlit("half");
    reveal_strlit("med");
    reveal_strlit("low");
    assert("high"@[1] == 'i' && "half"@[1] == 'a');
    assert("med"@[0] == 'm' && "low"@[0] == 'l');
}

/// A resolution hint that is none of the four tokens gives what `half`
/// gives: the same payload, or the same failure.
pub proof fn unrecognized_resolution_is_half(buffer: Seq<u8>, mime: Seq<char>, resolution: Seq<char>)
    requires
        !is_resolution_token(resolution),
    ensures
        pipeline_outcome(buffer, mime, resolution) == pipeline_outcome(buffer, mime, "half"@),
{
    resolution_tokens_name_their_tier();
}

/// Where an invocation succeeds, the payload's dimensions are the decoded
/// source's dimensions divided by the divisor of the requested tier, each
/// rounded down.
pub proof fn payload_dimensions_are_scaled(buffer: Seq<u8>, mime: Seq<char>, resolution: Seq<char>)
    requires
        pipeline_outcome(buffer, mime, resolution) is Ok,
    ensures
        format_for_hint(mime) is Some,
        decoded_image(buffer, format_for_hint(mime)->Some_0) is Ok,
        ({
            let source = decoded_image(buffer, format_for_hint(mime)->Some_0)->Ok_0;
            let payload = pipeline_outcome(buffer, mime, resolution)->Ok_0;
            let divisor = resolution_for_hint(resolution).spec_divisor();
            &&& payload.width as int == source.spec_width() as int / divisor as int
            &&& payload.height as int == source.spec_height() as int / divisor as int
        }),
{
}

/// At `high` nothing is scaled: where the invocation succeeds, the payload
/// has the decoded source's dimensions, and its bytes are the encoding of
/// the source itself.
pub proof fn high_keeps_the_source(buffer: Seq<u8>, mime: Seq<char>)
    requires
        pipeline_outcome(buffer, mime, "high"@) is Ok,
    ensures
        format_for_hint(mime) is Some,
        decoded_image(buffer, format_for_hint(mime)->Some_0) is Ok,
        ({
            let format = format_for_hint(mime)->Some_0;
            let source = decoded_image(buffer, format)->Ok_0;
            let payload = pipeline_outcome(buffer, mime, "high"@)->Ok_0;
            &&& payload.width == source.spec_width()
            &&& payload.height == source.spec_height()
            &&& encoded_image(source, format) == Ok::<Seq<u8>, Seq<char>>(payload.image)
        }),
{
    resolution_tokens_name_their_tier();
    payload_dimensions_are_scaled(buffer, mime, "high"@);
    assert(ImageResolution::High.spec_divisor() == 1);
}

} // verus!
