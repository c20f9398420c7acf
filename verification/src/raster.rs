//! The raster rendering: every annotation drawn as filled glyphs into one
//! opaque pixel buffer, from which the text cannot be selected or copied.
//!
//! The library lays the rendering out; the host that owns the surface and the
//! glyph rasteriser carries it out.

use vstd::prelude::*;
use crate::model::{Annotation, FontStyle, ImageAttributes, Position};

verus! {

/// The text of the label that is put on the surface beside the raster image.
/// It tells the reader that the image cannot be copied from.
pub const RASTER_LABEL: &'static str = "不可复制的图像";

/// A colour with its opacity, one byte per channel.
#[derive(Clone, Copy, Debug, PartialEq, Eq, Structural)]
pub struct Ink {
    pub red: u8,
    pub green: u8,
    pub blue: u8,
    pub alpha: u8,
}

/// The colour that annotations are drawn in: black at full opacity.
pub open spec fn opaque_black() -> Ink {
    Ink { red: 0, green: 0, blue: 0, alpha: 255 }
}

/// One run of text to draw into the pixel buffer.
#[derive(Clone, Debug)]
pub struct TextStroke {
    /// The plain text to draw.
    pub text: String,
    /// Where the top-left corner of the text goes.
    pub anchor: Position,
    /// The scale of the glyphs, the same in both directions.
    pub font_style: FontStyle,
    /// The colour that the glyph outlines are filled with.
    pub ink: Ink,
}

/// The mathematical value of a [`TextStroke`].
pub struct Stroke {
    pub text: Seq<char>,
    pub anchor: Position,
    pub font_style: FontStyle,
    pub ink: Ink,
}

impl View for TextStroke {
    type V = Stroke;

    open spec fn view(&self) -> Stroke {
        Stroke {
            text: self.text@,
            anchor: self.anchor,
            font_style: self.font_style,
            ink: self.ink,
        }
    }
}

/// A raster rendering, laid out: a blank buffer of the surface's dimensions,
/// the strokes to draw into it one after the other (a later stroke paints
/// over an earlier one), and the label that goes with the finished image.
#[derive(Clone, Debug)]
pub struct RasterPlan {
    pub surface: ImageAttributes,
    pub strokes: Vec<TextStroke>,
    pub label: String,
}

/// The mathematical value of a [`RasterPlan`].
pub struct Raster {
    pub surface: ImageAttributes,
    pub strokes: Seq<Stroke>,
    pub label: Seq<char>,
}

impl View for RasterPlan {
    type V = Raster;

    open spec fn view(&self) -> Raster {
        Raster {
            surface: self.surface,
            strokes: Seq::new(self.strokes@.len(), |i: int| self.strokes@[i]@),
            label: self.label@,
        }
    }
}

/// The stroke that draws one annotation: its text, anchored at its position,
/// at its size, in opaque black.
pub open spec fn stroke_of(annotation: Annotation) -> Stroke {
    Stroke {
        text: annotation.text,
        anchor: annotation.position,
        font_style: annotation.font_style,
        ink: opaque_black(),
    }
}

/// The raster rendering of `annotations` on a surface of the given
/// dimensions: one stroke per annotation, in the same order.
pub open spec fn raster_of(annotations: Seq<Annotation>, surface: ImageAttributes) -> Raster {
    Raster {
        surface,
        strokes: Seq::new(annotations.len(), |i: int| stroke_of(annotations[i])),
        label: RASTER_LABEL@,
    }
}

} // verus!
