use vstd::prelude::*;

use crate::format::same_text;

verus! {

/// The four output scales, a closed set.
#[derive(Clone, Copy, Debug, PartialEq, Eq, Structural)]
pub enum ImageResolution {
    /// The source as it was decoded.
    High,
    /// Half of each dimension.
    Half,
    /// A quarter of each dimension.
    Min,
    /// A fifth of each dimension.
    Lowest,
}

/// The tier that a resolution hint names. Every hint that is none of the
/// four tokens, the empty one included, means `Half`.
pub open spec fn resolution_for_hint(hint: Seq<char>) -> ImageResolution {
    if hint == "high"@ {
        ImageResolution::High
    } else if hint == "med"@ {
        ImageResolution::Min
    } else if hint == "low"@ {
        ImageResolution::Lowest
    } else {
        ImageResolution::Half
    }
}

/// Whether a hint is one of the four tokens that name a tier.
pub open spec fn is_resolution_token(hint: Seq<char>) -> bool {
    hint == "high"@ || hint == "half"@ || hint == "med"@ || hint == "low"@
}

impl ImageResolution {
    /// The number by which the tier divides both dimensions of the source.
    pub open spec fn spec_divisor(self) -> u32 {
        match self {
            ImageResolution::High => 1,
            ImageResolution::Half => 2,
            ImageResolution::Min => 4,
            ImageResolution::Lowest => 5,
        }
    }

    /// The size of the tier's variant of a `width` by `height` source, tier
    /// by tier: each dimension divided by the tier's divisor, rounded down.
    pub open spec fn spec_scaled_dimensions(self, width: u32, height: u32) -> (u32, u32) {
        match self {
            ImageResolution::High => (width, height),
            ImageResolution::Half => ((width / 2) as u32, (height / 2) as u32),
            ImageResolution::Min => ((width / 4) as u32, (height / 4) as u32),
            ImageResolution::Lowest => ((width / 5) as u32, (height / 5) as u32),
        }
    }

    /// Reads a resolution hint.
    pub fn from_hint(hint: &str) -> (tier: ImageResolution)
        ensures
            tier == resolution_for_hint(hint@),
    {
        if same_text(hint, "high") {
            ImageResolution::High
        } else if same_text(hint, "med") {
            ImageResolution::Min
        } else if same_text(hint, "low") {
            ImageResolution::Lowest
        } else {
            ImageResolution::Half
        }
    }

    /// The number by which the tier divides both dimensions of the source.
    #[verifier::when_used_as_spec(spec_divisor)]
    pub fn divisor(self) -> (d: u32)
        ensures
            d == self.spec_divisor(),
    {
        match self {
            ImageResolution::High => 1,
            ImageResolution::Half => 2,
            ImageResolution::Min => 4,
            ImageResolution::Lowest => 5,
        }
    }

    /// The size of the tier's variant of a `width` by `height` source: both
    /// dimensions divided by the tier's divisor, rounded down. Either can be
    /// zero; neither is ever clamped.
    #[verifier::when_used_as_spec(spec_scaled_dimensions)]
    pub fn scaled_dimensions(self, width: u32, height: u32) -> (size: (u32, u32))
        ensures
            size == self.spec_scaled_dimensions(width, height),
            size.0 as int == width as int / self.spec_divisor() as int,
            size.1 as int == height as int / self.spec_divisor() as int,
    {
        let divisor: u32 = self.divisor();
        (width / divisor, height / divisor)
    }
}

} // verus!
