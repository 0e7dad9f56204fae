use vstd::prelude::*;

verus! {

/// The encodings the pipeline reads and writes.
#[derive(Clone, Copy, Debug, PartialEq, Eq, Structural)]
pub enum CodecFormat {
    Jpeg,
    Png,
    Gif,
    WebP,
}

/// The format that a hint names: matching is exact, on lower-case tokens.
pub open spec fn format_for_hint(hint: Seq<char>) -> Option<CodecFormat> {
    if hint == "jpeg"@ || hint == "jpg"@ {
        Some(CodecFormat::Jpeg)
    } else if hint == "png"@ {
        Some(CodecFormat::Png)
    } else if hint == "gif"@ {
        Some(CodecFormat::Gif)
    } else if hint == "webp"@ {
        Some(CodecFormat::WebP)
    } else {
        None
    }
}

/// Whether a hint is one of the accepted format tokens.
pub open spec fn is_format_token(hint: Seq<char>) -> bool {
    hint == "jpeg"@ || hint == "jpg"@ || hint == "png"@ || hint == "gif"@ || hint == "webp"@
}

/// Whether two strings hold the same characters.
pub fn same_text(left: &str, right: &str) -> (same: bool)
    ensures
        same == (left@ == right@),
{
    left.to_owned() == right.to_owned()
}

} // verus!
