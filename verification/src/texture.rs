//! Texture objects: what to ask of the graphics API to set one up, fill it
//! with a decoded image and bind it to a texture unit.

use crate::calls::{CallView, GlCall, plan};
use crate::calls::{
    LINEAR, REPEAT, RGB, TEXTURE0, TEXTURE_2D, TEXTURE_MAG_FILTER, TEXTURE_MIN_FILTER,
    TEXTURE_WRAP_S, TEXTURE_WRAP_T, UNSIGNED_BYTE,
};
use vstd::prelude::*;
use vstd::string::*;

verus! {

/// Why a texture could not be filled from an image file.
#[derive(Debug, Clone, PartialEq, Eq)]
pub enum TextureError {
    /// The file holds floating-point samples.
    FormatNotSupported,
    /// The file could not be read or decoded; `msg` is the decoder's word.
    LoadError { msg: String },
}

/// A [`TextureError`] with its string as a sequence.
pub ghost enum TextureErrorView {
    FormatNotSupported,
    LoadError { msg: Seq<char> },
}

impl TextureErrorView {
    /// The line that describes the error to a reader.
    pub open spec fn message(self) -> Seq<char> {
        match self {
            TextureErrorView::FormatNotSupported => "Image format F32 is not supported"@,
            TextureErrorView::LoadError { msg } => "Cannot load texture image: "@ + msg,
        }
    }
}

impl View for TextureError {
    type V = TextureErrorView;

    open spec fn view(&self) -> TextureErrorView {
        match *self {
            TextureError::FormatNotSupported => TextureErrorView::FormatNotSupported,
            TextureError::LoadError { msg } => TextureErrorView::LoadError { msg: msg@ },
        }
    }
}

impl TextureError {
    /// The line that describes the error to a reader.
    pub fn message(&self) -> (text: String)
        ensures
            text@ == self@.message(),
    {
        match self {
            TextureError::FormatNotSupported => "Image format F32 is not supported".to_owned(),
            TextureError::LoadError { msg } => {
                let mut text = "Cannot load texture image: ".to_owned();
                text.append(msg.as_str());
                text
            },
        }
    }
}

/// How an image file is to be decoded for a texture.
#[derive(Debug, Clone, PartialEq, Eq)]
pub struct LoadRequest {
    /// The file to decode.
    pub path: String,
    /// Whether the rows come out bottom row first.
    pub flip_vertically: bool,
    /// The number of components that each pixel is converted to.
    pub force_depth: usize,
    /// Whether a file of floating-point samples is converted to bytes.
    pub convert_hdr: bool,
}

/// A decoded image of one byte per component.
#[derive(Debug, Clone, PartialEq, Eq)]
pub struct Image {
    /// Pixels in a row.
    pub width: usize,
    /// Rows.
    pub height: usize,
    /// Components in a pixel.
    pub depth: usize,
    /// The components, row by row.
    pub data: Vec<u8>,
}

/// An [`Image`] with its components as a sequence.
pub ghost struct ImageView {
    pub width: usize,
    pub height: usize,
    pub depth: usize,
    pub data: Seq<u8>,
}

impl View for Image {
    type V = ImageView;

    open spec fn view(&self) -> ImageView {
        ImageView { width: self.width, height: self.height, depth: self.depth, data: self.data@ }
    }
}

/// What decoding an image file gave.
#[derive(Debug, Clone, PartialEq, Eq)]
pub enum LoadResult {
    /// Nothing: the decoder's word on why.
    Error(String),
    /// An image of one byte per component.
    ImageU8(Image),
    /// An image of floating-point samples, which are not kept.
    ImageF32,
}

/// A [`LoadResult`] with its parts by their views.
pub ghost enum LoadResultView {
    Error(Seq<char>),
    ImageU8(ImageView),
    ImageF32,
}

impl View for LoadResult {
    type V = LoadResultView;

    open spec fn view(&self) -> LoadResultView {
        match *self {
            LoadResult::Error(msg) => LoadResultView::Error(msg@),
            LoadResult::ImageU8(image) => LoadResultView::ImageU8(image@),
            LoadResult::ImageF32 => LoadResultView::ImageF32,
        }
    }
}

/// A texture object, known by the name the graphics API gave it.
#[derive(Debug)]
pub struct Texture {
    id: u32,
}

impl View for Texture {
    type V = u32;

    closed spec fn view(&self) -> u32 {
        self.id
    }
}

/// The number of texture units that a texture can be bound to.
pub const TEXTURE_UNITS: i32 = 16;

/// The calls that bind the texture `texture` to the two-dimensional target of
/// the unit `unit`.
pub open spec fn bind_plan(texture: u32, unit: int) -> Seq<CallView> {
    seq![
        CallView::ActiveTexture { unit: (TEXTURE0 + unit) as u32 },
        CallView::BindTexture { target: TEXTURE_2D, texture },
    ]
}

/// The calls that give the texture `texture` its default parameters: it
/// repeats along both coordinates and is filtered linearly both ways.
pub open spec fn default_parameters_plan(texture: u32) -> Seq<CallView> {
    seq![
        CallView::BindTexture { target: TEXTURE_2D, texture },
        CallView::TexParameteri { target: TEXTURE_2D, pname: TEXTURE_WRAP_S, param: REPEAT as i32 },
        CallView::TexParameteri { target: TEXTURE_2D, pname: TEXTURE_WRAP_T, param: REPEAT as i32 },
        CallView::TexParameteri {
            target: TEXTURE_2D,
            pname: TEXTURE_MIN_FILTER,
            param: LINEAR as i32,
        },
        CallView::TexParameteri {
            target: TEXTURE_2D,
            pname: TEXTURE_MAG_FILTER,
            param: LINEAR as i32,
        },
    ]
}

/// The calls that fill the texture `texture` with `image` and build its
/// mipmaps. The image is handed over as rows of three-byte pixels; its width
/// and height are cut to 32 bits.
pub open spec fn upload_plan(texture: u32, image: ImageView) -> Seq<CallView> {
    seq![
        CallView::BindTexture { target: TEXTURE_2D, texture },
        CallView::TexImage2D {
            target: TEXTURE_2D,
            level: 0,
            internal_format: RGB as i32,
            width: image.width as i32,
            height: image.height as i32,
            border: 0,
            format: RGB,
            kind: UNSIGNED_BYTE,
            pixels: image.data,
        },
        CallView::GenerateMipmap { target: TEXTURE_2D },
    ]
}

/// What becomes of filling the texture `texture` from a file whose decoding
/// gave `loaded`: the texture and the calls that fill it, or the reason why it
/// is not filled.
pub open spec fn load_outcome(texture: u32, loaded: LoadResultView) -> Result<
    (u32, Seq<CallView>),
    TextureErrorView,
> {
    match loaded {
        LoadResultView::ImageU8(image) => Ok((texture, upload_plan(texture, image))),
        LoadResultView::ImageF32 => Err(TextureErrorView::FormatNotSupported),
        LoadResultView::Error(msg) => Err(TextureErrorView::LoadError { msg }),
    }
}

impl Texture {
    /// The texture whose object has the name `id`.
    pub fn new(id: u32) -> (texture: Texture)
        ensures
            texture@ == id,
    {
        Texture { id }
    }

    /// The calls that bind the texture to the texture unit `unit`.
    pub fn bind(&self, unit: i32) -> (calls: Vec<GlCall>)
        requires
            0 <= unit < TEXTURE_UNITS,
        ensures
            plan(calls@) == bind_plan(self@, unit as int),
    {
        let calls = vec![
            GlCall::ActiveTexture { unit: Texture::unit_to_gl_const(unit) },
            GlCall::BindTexture { target: TEXTURE_2D, texture: self.id },
        ];
        assert(plan(calls@) =~= bind_plan(self@, unit as int));
        calls
    }

    /// The value that selects the texture unit `unit`.
    pub fn unit_to_gl_const(unit: i32) -> (selector: u32)
        requires
            0 <= unit < TEXTURE_UNITS,
        ensures
            selector == TEXTURE0 + unit,
    {
        TEXTURE0 + (unit as u32)
    }

    /// The calls that give the texture its default parameters.
    pub fn set_default_parameters(self) -> (set: (Texture, Vec<GlCall>))
        ensures
            set.0@ == self@,
            plan(set.1@) == default_parameters_plan(self@),
    {
        let calls = vec![
            GlCall::BindTexture { target: TEXTURE_2D, texture: self.id },
            GlCall::TexParameteri {
                target: TEXTURE_2D,
                pname: TEXTURE_WRAP_S,
                param: REPEAT as i32,
            },
            GlCall::TexParameteri {
                target: TEXTURE_2D,
                pname: TEXTURE_WRAP_T,
                param: REPEAT as i32,
            },
            GlCall::TexParameteri {
                target: TEXTURE_2D,
                pname: TEXTURE_MIN_FILTER,
                param: LINEAR as i32,
            },
            GlCall::TexParameteri {
                target: TEXTURE_2D,
                pname: TEXTURE_MAG_FILTER,
                param: LINEAR as i32,
            },
        ];
        assert(plan(calls@) =~= default_parameters_plan(self@));
        (self, calls)
    }

    /// How the image file `path` is to be decoded for a texture: bottom row
    /// first, three components to the pixel, floating-point samples left as
    /// they are.
    pub fn load_request(path: &str) -> (request: LoadRequest)
        ensures
            request.path@ == path@,
            request.flip_vertically,
            request.force_depth == 3,
            !request.convert_hdr,
    {
        LoadRequest {
            path: path.to_owned(),
            flip_vertically: true,
            force_depth: 3,
            convert_hdr: false,
        }
    }

    /// Fills the texture from a file whose decoding gave `loaded`.
    pub fn load_image(self, loaded: LoadResult) -> (filled: Result<
        (Texture, Vec<GlCall>),
        TextureError,
    >)
        ensures
            load_outcome(self@, loaded@) == match filled {
                Ok((texture, calls)) => Ok((texture@, plan(calls@))),
                Err(error) => Err(error@),
            },
    {
        match loaded {
            LoadResult::ImageU8(image) => {
                let calls = vec![
                    GlCall::BindTexture { target: TEXTURE_2D, texture: self.id },
                    GlCall::TexImage2D {
                        target: TEXTURE_2D,
                        level: 0,
                        internal_format: RGB as i32,
                        width: image.width as i32,
                        height: image.height as i32,
                        border: 0,
                        format: RGB,
                        kind: UNSIGNED_BYTE,
                        pixels: image.data,
                    },
                    GlCall::GenerateMipmap { target: TEXTURE_2D },
                ];
                assert(plan(calls@) =~= upload_plan(self@, image@));
                Ok((self, calls))
            },
            LoadResult::ImageF32 => Err(TextureError::FormatNotSupported),
            LoadResult::Error(msg) => Err(TextureError::LoadError { msg }),
        }
    }
}

} // verus!
