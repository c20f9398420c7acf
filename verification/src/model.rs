//! The data that a render request carries, and the settings of a render.

use vstd::prelude::*;

verus! {

/// Where the font asset is fetched from unless a configuration says otherwise.
pub const FONT_URL: &'static str = "font/arial.ttf";

/// Width in pixels of the output surface unless a configuration says otherwise.
pub const SURFACE_WIDTH: u32 = 100;

/// Height in pixels of the output surface unless a configuration says otherwise.
pub const SURFACE_HEIGHT: u32 = 100;

/// A point of the output surface, in pixels from its top-left corner.
#[derive(Clone, Copy, Debug, PartialEq, Eq, Structural)]
pub struct Position {
    pub x: i32,
    pub y: i32,
}

/// The size of an annotation's text.
///
/// The size is a single-precision float, the same scale in both directions.
/// Verified code never computes with it: it is carried as its IEEE 754 bit
/// pattern, from the request to the host that draws.
#[derive(Clone, Copy, Debug, PartialEq, Eq, Structural)]
pub struct FontStyle {
    pub size_bits: u32,
}

/// One piece of text to render, with its place and size.
///
/// In a request `cipher` holds the obscured text; once the request has been
/// decoded it holds the plain text.
#[derive(Clone, Debug)]
pub struct RenderString {
    pub cipher: String,
    pub position: Position,
    pub font_style: FontStyle,
}

/// The mathematical value of a [`RenderString`].
pub struct Annotation {
    pub text: Seq<char>,
    pub position: Position,
    pub font_style: FontStyle,
}

impl View for RenderString {
    type V = Annotation;

    open spec fn view(&self) -> Annotation {
        Annotation { text: self.cipher@, position: self.position, font_style: self.font_style }
    }
}

/// The values of a sequence of annotations, in the same order.
pub open spec fn annotations_of(items: Seq<RenderString>) -> Seq<Annotation> {
    Seq::new(items.len(), |i: int| items[i]@)
}

/// A render request: the annotations in drawing order, and the token of the
/// session that asks for them.
#[derive(Clone, Debug)]
pub struct Params {
    pub render_info: Vec<RenderString>,
    pub user_token: String,
}

/// The mathematical value of a [`Params`].
pub struct Request {
    pub annotations: Seq<Annotation>,
    pub token: Seq<char>,
}

impl View for Params {
    type V = Request;

    open spec fn view(&self) -> Request {
        Request { annotations: annotations_of(self.render_info@), token: self.user_token@ }
    }
}

/// The dimensions of the output surface, in pixels.
#[derive(Clone, Copy, Debug, PartialEq, Eq, Structural)]
pub struct ImageAttributes {
    pub width: u32,
    pub height: u32,
}

/// Why a render was given up. Each of them is fatal: nothing is retried and
/// nothing that was already put on the surface is taken back.
#[derive(Clone, Copy, Debug, PartialEq, Eq, Structural)]
pub enum RenderError {
    /// The font asset could not be fetched, or is no font.
    FontUnavailable,
    /// The output surface refused an operation.
    SurfaceFailure,
    /// The request could not be read.
    MalformedRequest,
}

/// The name that a render error goes by where a request is rejected.
pub open spec fn error_name(error: RenderError) -> Seq<char> {
    match error {
        RenderError::FontUnavailable => "FontUnavailable"@,
        RenderError::SurfaceFailure => "SurfaceFailure"@,
        RenderError::MalformedRequest => "MalformedRequest"@,
    }
}

impl RenderError {
    /// The name that the error goes by where a request is rejected.
    pub fn name(&self) -> (name: &'static str)
        ensures
            name@ == error_name(*self),
    {
        match self {
            RenderError::FontUnavailable => "FontUnavailable",
            RenderError::SurfaceFailure => "SurfaceFailure",
            RenderError::MalformedRequest => "MalformedRequest",
        }
    }
}

/// The settings of a render pipeline, fixed when it is made.
#[derive(Clone, Debug)]
pub struct Config {
    /// The key that the annotations of a request are obscured under.
    pub key: u8,
    /// The dimensions of the output surface.
    pub surface: ImageAttributes,
    /// Where the font asset is fetched from.
    pub font_url: String,
}

/// The mathematical value of a [`Config`].
pub struct Settings {
    pub key: u8,
    pub surface: ImageAttributes,
    pub font_url: Seq<char>,
}

impl View for Config {
    type V = Settings;

    open spec fn view(&self) -> Settings {
        Settings { key: self.key, surface: self.surface, font_url: self.font_url@ }
    }
}

/// The standard settings.
pub open spec fn standard_settings() -> Settings {
    Settings {
        key: crate::cipher::KEY,
        surface: ImageAttributes { width: SURFACE_WIDTH, height: SURFACE_HEIGHT },
        font_url: FONT_URL@,
    }
}

impl Default for Config {
    /// The standard settings: [`crate::cipher::KEY`], a surface of
    /// [`SURFACE_WIDTH`] by [`SURFACE_HEIGHT`] pixels, and [`FONT_URL`].
    fn default() -> (config: Config)
        ensures
            config@ == standard_settings(),
    {
        Config {
            key: crate::cipher::KEY,
            surface: ImageAttributes { width: SURFACE_WIDTH, height: SURFACE_HEIGHT },
            font_url: FONT_URL.to_owned(),
        }
    }
}

} // verus!
