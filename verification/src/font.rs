//! The font resource that the raster rendering draws with.

use rusttype::Font;
use vstd::prelude::*;
use crate::model::RenderError;

verus! {

/// A parsed font of the `rusttype` crate. Verified code only carries it from
/// the parser to the host that draws.
#[verifier::external_type_specification]
#[verifier::external_body]
pub struct ExFont<'a>(Font<'a>);

/// Whether `rusttype` accepts `bytes` as the data of a font file.
pub uninterp spec fn font_parses(bytes: Seq<u8>) -> bool;

/// Calls `rusttype::Font::try_from_vec`.
///
/// Trusted: whether a font comes back depends on the bytes alone.
#[verifier::external_body]
fn parse_font(bytes: Vec<u8>) -> (font: Option<Font<'static>>)
    ensures
        font is Some <==> font_parses(bytes@),
{
    Font::try_from_vec(bytes)
}

/// Whether a fetch of the font asset ended with bytes that are a font.
pub open spec fn font_usable(fetched: Option<Seq<u8>>) -> bool {
    fetched matches Some(bytes) && font_parses(bytes)
}

/// Turns what a fetch of the font asset ended with into a font. A fetch that
/// failed and bytes that are no font both leave the render without one.
pub fn load_font(fetched: Option<Vec<u8>>) -> (font: Result<Font<'static>, RenderError>)
    ensures
        font is Ok <==> font_usable(
            match fetched {
                Some(bytes) => Some(bytes@),
                None => None,
            },
        ),
        font matches Err(e) ==> e == RenderError::FontUnavailable,
{
    match fetched {
        Some(bytes) => match parse_font(bytes) {
            Some(font) => Ok(font),
            None => Err(RenderError::FontUnavailable),
        },
        None => Err(RenderError::FontUnavailable),
    }
}

} // verus!
