use vstd::prelude::*;

use crate::error::{ErrorModel, PipelineError};
use crate::format::{format_for_hint, same_text, CodecFormat};
use crate::raster::{
    codec_decode, codec_encode, codec_resize, decoded_image, encoded_image, resampled_image,
    RasterImage, ResampleFilter,
};
use crate::tier::ImageResolution;

verus! {

/// The resampling kernel of this build. It is not the caller's to choose.
pub const RESAMPLE_POLICY: ResampleFilter = ResampleFilter::Nearest;

/// What is known of the image beside its pixels.
#[derive(Debug, PartialEq, Eq)]
pub struct ImageInformation {
    /// The caller's label. It is kept as given and never interpreted.
    pub name: String,
    /// The width of the raster that was selected last.
    pub width: u32,
    /// The height of the raster that was selected last.
    pub height: u32,
    /// The encoding of the input, which is also that of the output.
    pub extension: CodecFormat,
}

/// The mathematical value of an [`ImageInformation`].
pub struct InformationModel {
    pub name: Seq<char>,
    pub width: u32,
    pub height: u32,
    pub extension: CodecFormat,
}

impl View for ImageInformation {
    type V = InformationModel;

    open spec fn view(&self) -> InformationModel {
        InformationModel {
            name: self.name@,
            width: self.width,
            height: self.height,
            extension: self.extension,
        }
    }
}

/// The raster of a tier, given the decoded source: the source itself for
/// `High`, else the source resampled to the tier's size.
pub open spec fn variant_of(source: RasterImage, tier: ImageResolution) -> RasterImage {
    match tier {
        ImageResolution::High => source,
        _ => {
            let size = tier.spec_scaled_dimensions(source.spec_width(), source.spec_height());
            resampled_image(source, size.0, size.1, RESAMPLE_POLICY)
        },
    }
}

/// The decoded source with its three scaled variants, and the metadata that
/// follows the tier selected last.
pub struct ImageResolver {
    image: RasterImage,
    information: ImageInformation,
    half: RasterImage,
    min: RasterImage,
    lowest: RasterImage,
    selected: ImageResolution,
}

impl ImageResolver {
    /// The decoded source.
    pub closed spec fn source(&self) -> RasterImage {
        self.image
    }

    /// The raster held for a tier.
    pub closed spec fn variant(&self, tier: ImageResolution) -> RasterImage {
        match tier {
            ImageResolution::High => self.image,
            ImageResolution::Half => self.half,
            ImageResolution::Min => self.min,
            ImageResolution::Lowest => self.lowest,
        }
    }

    /// The metadata.
    pub closed spec fn spec_information(&self) -> &ImageInformation {
        &self.information
    }

    /// The tier that was selected last; `High` until one is.
    pub closed spec fn selected(&self) -> ImageResolution {
        self.selected
    }

    /// Whether the raster held for `tier` is the tier's variant of the
    /// source, with the source's dimensions divided by the tier's divisor.
    pub open spec fn holds_variant(&self, tier: ImageResolution) -> bool {
        &&& self.variant(tier) == variant_of(self.source(), tier)
        &&& (self.variant(tier).spec_width(), self.variant(tier).spec_height())
            == tier.spec_scaled_dimensions(self.source().spec_width(), self.source().spec_height())
    }

    /// The invariant of the store: every tier holds its variant of the
    /// source, and the metadata carries the dimensions of the raster of the
    /// selected tier.
    pub open spec fn wf(&self) -> bool {
        &&& self.holds_variant(ImageResolution::High)
        &&& self.holds_variant(ImageResolution::Half)
        &&& self.holds_variant(ImageResolution::Min)
        &&& self.holds_variant(ImageResolution::Lowest)
        &&& self.spec_information().width == self.variant(self.selected()).spec_width()
        &&& self.spec_information().height == self.variant(self.selected()).spec_height()
    }

    /// Maps a format hint to the codec it names. Matching is exact: a hint
    /// in another case, or with anything around the token, is rejected.
    pub fn get_extension(extension: &str) -> (outcome: Result<CodecFormat, PipelineError>)
        ensures
            match format_for_hint(extension@) {
                Some(format) => outcome == Ok::<CodecFormat, PipelineError>(format),
                None => outcome is Err && outcome->Err_0@ == ErrorModel::UnsupportedFormat,
            },
    {
        if same_text(extension, "jpeg") || same_text(extension, "jpg") {
            Ok(CodecFormat::Jpeg)
        } else if same_text(extension, "png") {
            Ok(CodecFormat::Png)
        } else if same_text(extension, "gif") {
            Ok(CodecFormat::Gif)
        } else if same_text(extension, "webp") {
            Ok(CodecFormat::WebP)
        } else {
            Err(PipelineError::UnsupportedFormat)
        }
    }

    /// What the pipeline makes of the decoder's answer: the raster as it is,
    /// or a decode failure with the decoder's reason.
    pub fn settle_decoded(answer: Result<RasterImage, String>) -> (outcome: Result<RasterImage, PipelineError>)
        ensures
            match answer {
                Ok(raster) => outcome == Ok::<RasterImage, PipelineError>(raster),
                Err(reason) => outcome is Err && outcome->Err_0@ == (ErrorModel::DecodeFailure {
                    reason: reason@,
                }),
            },
    {
        match answer {
            Ok(raster) => Ok(raster),
            Err(reason) => Err(PipelineError::DecodeFailure { reason }),
        }
    }

    /// Decodes a buffer that is declared to be in `format`. The content is
    /// not held against the declared format: the codec decides.
    pub fn load_image_from_buffer(buffer: &[u8], format: &CodecFormat) -> (outcome: Result<
        RasterImage,
        PipelineError,
    >)
        ensures
            match decoded_image(buffer@, *format) {
                Ok(raster) => outcome == Ok::<RasterImage, PipelineError>(raster),
                Err(reason) => outcome is Err && outcome->Err_0@ == (ErrorModel::DecodeFailure {
                    reason,
                }),
            },
    {
        Self::settle_decoded(codec_decode(buffer, *format))
    }

    /// The metadata of a freshly decoded raster.
    pub fn get_information_from_dyn_image(
        image: &RasterImage,
        extension: CodecFormat,
        name: &str,
    ) -> (information: ImageInformation)
        ensures
            information@ == (InformationModel {
                name: name@,
                width: image.spec_width(),
                height: image.spec_height(),
                extension,
            }),
    {
        ImageInformation {
            name: name.to_owned(),
            width: image.width(),
            height: image.height(),
            extension,
        }
    }

    /// Scales a raster down by a divisor. Both dimensions are divided by the
    /// same number and rounded down, so either can come out as zero.
    pub fn resize(source: &RasterImage, divisor: u32) -> (variant: RasterImage)
        requires
            divisor == 2 || divisor == 4 || divisor == 5,
        ensures
            variant.spec_width() as int == source.spec_width() as int / divisor as int,
            variant.spec_height() as int == source.spec_height() as int / divisor as int,
            variant == resampled_image(
                *source,
                (source.spec_width() / divisor) as u32,
                (source.spec_height() / divisor) as u32,
                RESAMPLE_POLICY,
            ),
    {
        codec_resize(source, source.width() / divisor, source.height() / divisor, RESAMPLE_POLICY)
    }

    /// What the pipeline makes of the encoder's answer: the bytes as they
    /// are, or an encode failure with the encoder's reason.
    pub fn settle_encoded(answer: Result<Vec<u8>, String>) -> (outcome: Result<Vec<u8>, PipelineError>)
        ensures
            match answer {
                Ok(bytes) => outcome == Ok::<Vec<u8>, PipelineError>(bytes),
                Err(reason) => outcome is Err && outcome->Err_0@ == (ErrorModel::EncodeFailure {
                    reason: reason@,
                }),
            },
    {
        match answer {
            Ok(bytes) => Ok(bytes),
            Err(reason) => Err(PipelineError::EncodeFailure { reason }),
        }
    }

    /// Encodes a raster in `extension`, into memory, and returns all of it.
    pub fn write_image_to_vec(image: &RasterImage, extension: CodecFormat) -> (outcome: Result<
        Vec<u8>,
        PipelineError,
    >)
        ensures
            match encoded_image(*image, extension) {
                Ok(bytes) => outcome is Ok && outcome->Ok_0@ == bytes,
                Err(reason) => outcome is Err && outcome->Err_0@ == (ErrorModel::EncodeFailure {
                    reason,
                }),
            },
    {
        Self::settle_encoded(codec_encode(image, extension))
    }

    /// Builds the store around a decoded raster: all three scaled variants
    /// are computed here, and the metadata starts at the source's size.
    pub fn from_image(image: RasterImage, extension: CodecFormat, name: &str) -> (resolver: Self)
        ensures
            resolver.wf(),
            resolver.source() == image,
            resolver.selected() == ImageResolution::High,
            resolver.spec_information()@ == (InformationModel {
                name: name@,
                width: image.spec_width(),
                height: image.spec_height(),
                extension,
            }),
    {
        let information = Self::get_information_from_dyn_image(&image, extension, name);
        let half = Self::resize(&image, 2);
        let min = Self::resize(&image, 4);
        let lowest = Self::resize(&image, 5);
        ImageResolver { image, information, half, min, lowest, selected: ImageResolution::High }
    }

    /// Resolves the format, decodes the buffer and builds the store.
    pub fn new(buffer: &[u8], extension: &str, name: &str) -> (outcome: Result<Self, PipelineError>)
        ensures
            match format_for_hint(extension@) {
                None => outcome is Err && outcome->Err_0@ == ErrorModel::UnsupportedFormat,
                Some(format) => match decoded_image(buffer@, format) {
                    Err(reason) => outcome is Err && outcome->Err_0@ == (ErrorModel::DecodeFailure {
                        reason,
                    }),
                    Ok(source) => {
                        &&& outcome is Ok
                        &&& outcome->Ok_0.wf()
                        &&& outcome->Ok_0.source() == source
                        &&& outcome->Ok_0.selected() == ImageResolution::High
                        &&& outcome->Ok_0.spec_information()@ == (InformationModel {
                            name: name@,
                            width: source.spec_width(),
                            height: source.spec_height(),
                            extension: format,
                        })
                    },
                },
            },
    {
        let extension_format = match Self::get_extension(extension) {
            Ok(format) => format,
            Err(failure) => {
                return Err(failure);
            },
        };
        let image = match Self::load_image_from_buffer(buffer, &extension_format) {
            Ok(raster) => raster,
            Err(failure) => {
                return Err(failure);
            },
        };
        Ok(Self::from_image(image, extension_format, name))
    }

    /// The raster held for a tier.
    pub fn get_variant(&self, tier: ImageResolution) -> (raster: &RasterImage)
        ensures
            *raster == self.variant(tier),
    {
        match tier {
            ImageResolution::High => &self.image,
            ImageResolution::Half => &self.half,
            ImageResolution::Min => &self.min,
            ImageResolution::Lowest => &self.lowest,
        }
    }

    /// The width and height of the raster held for a tier.
    pub fn current_dimensions(&self, tier: ImageResolution) -> (size: (u32, u32))
        requires
            self.wf(),
        ensures
            size == (self.variant(tier).spec_width(), self.variant(tier).spec_height()),
            size == tier.spec_scaled_dimensions(
                self.source().spec_width(),
                self.source().spec_height(),
            ),
    {
        let raster = self.get_variant(tier);
        (raster.width(), raster.height())
    }

    /// The metadata as it stands.
    #[verifier::when_used_as_spec(spec_information)]
    pub fn information(&self) -> (information: &ImageInformation)
        ensures
            information == self.spec_information(),
    {
        &self.information
    }

    /// Selects a tier: the metadata takes the dimensions of that tier's
    /// raster. Nothing else changes.
    pub fn update_dimensions(&mut self, resolution: &ImageResolution)
        requires
            old(self).wf(),
        ensures
            final(self).wf(),
            final(self).selected() == *resolution,
            final(self).source() == old(self).source(),
            forall|tier: ImageResolution| final(self).variant(tier) == old(self).variant(tier),
            *final(self).spec_information() == (ImageInformation {
                width: old(self).variant(*resolution).spec_width(),
                height: old(self).variant(*resolution).spec_height(),
                ..*old(self).spec_information()
            }),
    {
        let (width, height) = self.current_dimensions(*resolution);
        self.information.height = height;
        self.information.width = width;
        self.selected = *resolution;
    }

    /// Selects a tier and encodes its raster in the format of the input. The
    /// metadata is brought to the tier's dimensions before the encoder runs,
    /// so it is never stale against the bytes, and it stays so when the
    /// encoder fails.
    pub fn transform_image_to_unit8(&mut self, res: ImageResolution) -> (outcome: Result<
        Vec<u8>,
        PipelineError,
    >)
        requires
            old(self).wf(),
        ensures
            final(self).wf(),
            final(self).selected() == res,
            final(self).source() == old(self).source(),
            forall|tier: ImageResolution| final(self).variant(tier) == old(self).variant(tier),
            *final(self).spec_information() == (ImageInformation {
                width: old(self).variant(res).spec_width(),
                height: old(self).variant(res).spec_height(),
                ..*old(self).spec_information()
            }),
            match encoded_image(old(self).variant(res), old(self).spec_information().extension) {
                Ok(bytes) => outcome is Ok && outcome->Ok_0@ == bytes,
                Err(reason) => outcome is Err && outcome->Err_0@ == (ErrorModel::EncodeFailure {
                    reason,
                }),
            },
    {
        self.update_dimensions(&res);
        let extension = self.information.extension;
        Self::write_image_to_vec(self.get_variant(res), extension)
    }
}

} // verus!
