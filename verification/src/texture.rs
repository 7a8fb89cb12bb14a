//! Textures: which pixel formats the renderer takes and what the device
//! is told about them. Decoding image files is the caller's business; it
//! hands over the size, the pixel format and the bytes.

use crate::gl::{
    rgb8_format, rgb_data, rgba32_format, rgba8_format, rgba_data, unsigned_byte_type,
};
use vstd::prelude::*;

verus! {

/// The pixel formats a texture can have on the device.
#[derive(Clone, Copy, Debug, PartialEq, Eq, Structural)]
pub enum TextureFormat {
    NoneType,
    RGB8,
    RGBA8,
    RGBA32F,
}

/// What is asked of a texture.
#[derive(Clone, Copy, Debug, PartialEq, Eq)]
pub struct TextureSpec {
    pub width: u32,
    pub height: u32,
    pub format: TextureFormat,
    pub generate_mips: bool,
}

/// The pixel formats an image decoder can report.
#[derive(Clone, Copy, Debug, PartialEq, Eq, Structural)]
pub enum ColorType {
    L8,
    La8,
    Rgb8,
    Rgba8,
    L16,
    La16,
    Rgb16,
    Rgba16,
    Rgb32F,
    Rgba32F,
    Other,
}

impl ColorType {
    /// Whether the renderer has a texture format for these pixels.
    pub open spec fn spec_is_supported(self) -> bool {
        self == ColorType::Rgb8 || self == ColorType::Rgba8 || self == ColorType::Rgba32F
    }

    pub fn is_supported(&self) -> (r: bool)
        ensures
            r == self.spec_is_supported(),
    {
        match self {
            ColorType::Rgb8 | ColorType::Rgba8 | ColorType::Rgba32F => true,
            _ => false,
        }
    }
}

impl TextureFormat {
    /// The texture format for pixels of a supported kind.
    pub open spec fn of(item: ColorType) -> TextureFormat {
        match item {
            ColorType::Rgb8 => TextureFormat::RGB8,
            ColorType::Rgba8 => TextureFormat::RGBA8,
            ColorType::Rgba32F => TextureFormat::RGBA32F,
            _ => TextureFormat::NoneType,
        }
    }

    /// The OpenGL enumerant of the format as the device stores it.
    pub open spec fn spec_gl_internal_format(self) -> u32 {
        match self {
            TextureFormat::RGB8 => 0x8051,
            TextureFormat::RGBA8 => 0x8058,
            TextureFormat::RGBA32F => 0x8814,
            TextureFormat::NoneType => 0,
        }
    }

    /// The OpenGL enumerant of the channels in the bytes handed over.
    pub open spec fn spec_gl_data_format(self) -> u32 {
        match self {
            TextureFormat::RGB8 => 0x1907,
            TextureFormat::RGBA8 | TextureFormat::RGBA32F => 0x1908,
            TextureFormat::NoneType => 0,
        }
    }

    /// The texture format for pixels of a supported kind.
    pub fn from(item: ColorType) -> (r: Self)
        requires
            item.spec_is_supported(),
        ensures
            r == Self::of(item),
            r != TextureFormat::NoneType,
    {
        match item {
            ColorType::Rgb8 => TextureFormat::RGB8,
            ColorType::Rgba8 => TextureFormat::RGBA8,
            _ => TextureFormat::RGBA32F,
        }
    }

    /// The texture format for pixels of the given kind, if there is one.
    pub fn try_from(item: ColorType) -> (r: Option<Self>)
        ensures
            r == if item.spec_is_supported() {
                Some(Self::of(item))
            } else {
                None
            },
    {
        if item.is_supported() {
            Some(Self::from(item))
        } else {
            None
        }
    }

    /// The OpenGL enumerant of the format as the device stores it.
    pub fn into(self) -> (r: u32)
        requires
            self != TextureFormat::NoneType,
        ensures
            r == self.spec_gl_internal_format(),
    {
        match self {
            TextureFormat::RGB8 => rgb8_format(),
            TextureFormat::RGBA8 => rgba8_format(),
            _ => rgba32_format(),
        }
    }

    /// The same enumerant as a signed number, for the calls that take one.
    pub fn into_signed(self) -> (r: i32)
        requires
            self != TextureFormat::NoneType,
        ensures
            r == self.spec_gl_internal_format(),
    {
        let unsign: u32 = self.into();
        unsign as i32
    }

    /// The OpenGL enumerant of the channels in the bytes handed over.
    pub fn to_gl_data_format(&self) -> (r: u32)
        requires
            *self != TextureFormat::NoneType,
        ensures
            r == self.spec_gl_data_format(),
    {
        match self {
            TextureFormat::RGB8 => rgb_data(),
            _ => rgba_data(),
        }
    }
}

/// What the device is told when a texture's pixels are handed over.
#[derive(Clone, Copy, Debug, PartialEq, Eq)]
pub struct TextureUpload {
    pub levels: i32,
    pub internal_format: u32,
    pub width: i32,
    pub height: i32,
    pub data_format: u32,
    pub data_type: u32,
}

/// A texture on the device as plain values.
pub struct TextureView {
    pub id: u32,
    pub path: Seq<char>,
    pub width: u32,
    pub height: u32,
    pub format: TextureFormat,
}

/// A texture on the device: the name the device knows it by, where it was
/// loaded from, its size and its format.
#[derive(Debug)]
pub struct Texture {
    id: u32,
    path: String,
    width: u32,
    height: u32,
    format: TextureFormat,
}

impl View for Texture {
    type V = TextureView;

    closed spec fn view(&self) -> TextureView {
        TextureView {
            id: self.id,
            path: self.path@,
            width: self.width,
            height: self.height,
            format: self.format,
        }
    }
}

impl Texture {
    /// The texture the device calls `id`, decoded from the file at
    /// `filepath` into `width` by `height` pixels of kind `color`.
    pub fn new(id: u32, filepath: &str, width: u32, height: u32, color: ColorType) -> (r: Self)
        requires
            color.spec_is_supported(),
        ensures
            r@ == (TextureView {
                id,
                path: filepath@,
                width,
                height,
                format: TextureFormat::of(color),
            }),
    {
        Texture { id, path: filepath.to_owned(), width, height, format: TextureFormat::from(color) }
    }

    pub fn id(&self) -> (r: u32)
        ensures
            r == self@.id,
    {
        self.id
    }

    pub fn get_path(&self) -> (r: &str)
        ensures
            r@ == self@.path,
    {
        self.path.as_str()
    }

    pub fn get_width(&self) -> (r: u32)
        ensures
            r == self@.width,
    {
        self.width
    }

    pub fn get_height(&self) -> (r: u32)
        ensures
            r == self@.height,
    {
        self.height
    }

    pub fn format(&self) -> (r: TextureFormat)
        ensures
            r == self@.format,
    {
        self.format
    }

    /// What the device is told when the pixels are handed over: one level
    /// of storage in the texture's format, filled from unsigned bytes.
    /// `None` if the size does not fit the device's signed parameters or
    /// the texture has no format.
    pub fn upload(&self) -> (r: Option<TextureUpload>)
        ensures
            r == if self@.width <= i32::MAX && self@.height <= i32::MAX && self@.format
                != TextureFormat::NoneType {
                Some(
                    TextureUpload {
                        levels: 1,
                        internal_format: self@.format.spec_gl_internal_format(),
                        width: self@.width as i32,
                        height: self@.height as i32,
                        data_format: self@.format.spec_gl_data_format(),
                        data_type: 0x1401,
                    },
                )
            } else {
                None
            },
    {
        if self.width > i32::MAX as u32 || self.height > i32::MAX as u32 {
            return None;
        }
        match self.format {
            TextureFormat::NoneType => None,
            _ => Some(
                TextureUpload {
                    levels: 1,
                    internal_format: self.format.into(),
                    width: self.width as i32,
                    height: self.height as i32,
                    data_format: self.format.to_gl_data_format(),
                    data_type: unsigned_byte_type(),
                },
            ),
        }
    }
}

} // verus!
