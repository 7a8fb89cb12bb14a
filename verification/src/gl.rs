//! The OpenGL enumerants this library hands to the device, taken from `glow`.

use vstd::prelude::*;

verus! {

/// Reads `glow::FLOAT`; trusted to be the OpenGL enumerant `GL_FLOAT`, 0x1406.
#[verifier::external_body]
pub(crate) fn float_type() -> (r: u32)
    ensures
        r == 0x1406u32,
{
    glow::FLOAT
}

/// Reads `glow::INT`; trusted to be the OpenGL enumerant `GL_INT`, 0x1404.
#[verifier::external_body]
pub(crate) fn int_type() -> (r: u32)
    ensures
        r == 0x1404u32,
{
    glow::INT
}

/// Reads `glow::BOOL`; trusted to be the OpenGL enumerant `GL_BOOL`, 0x8B56.
#[verifier::external_body]
pub(crate) fn bool_type() -> (r: u32)
    ensures
        r == 0x8B56u32,
{
    glow::BOOL
}

/// Reads `glow::RGB8`; trusted to be the OpenGL enumerant `GL_RGB8`, 0x8051.
#[verifier::external_body]
pub(crate) fn rgb8_format() -> (r: u32)
    ensures
        r == 0x8051u32,
{
    glow::RGB8
}

/// Reads `glow::RGBA8`; trusted to be the OpenGL enumerant `GL_RGBA8`,
/// 0x8058.
#[verifier::external_body]
pub(crate) fn rgba8_format() -> (r: u32)
    ensures
        r == 0x8058u32,
{
    glow::RGBA8
}

/// Reads `glow::RGBA32F`; trusted to be the OpenGL enumerant
/// `GL_RGBA32F`, 0x8814.
#[verifier::external_body]
pub(crate) fn rgba32_format() -> (r: u32)
    ensures
        r == 0x8814u32,
{
    glow::RGBA32F
}

/// Reads `glow::RGB`; trusted to be the OpenGL enumerant `GL_RGB`, 0x1907.
#[verifier::external_body]
pub(crate) fn rgb_data() -> (r: u32)
    ensures
        r == 0x1907u32,
{
    glow::RGB
}

/// Reads `glow::RGBA`; trusted to be the OpenGL enumerant `GL_RGBA`,
/// 0x1908.
#[verifier::external_body]
pub(crate) fn rgba_data() -> (r: u32)
    ensures
        r == 0x1908u32,
{
    glow::RGBA
}

/// Reads `glow::UNSIGNED_BYTE`; trusted to be the OpenGL enumerant
/// `GL_UNSIGNED_BYTE`, 0x1401.
#[verifier::external_body]
pub(crate) fn unsigned_byte_type() -> (r: u32)
    ensures
        r == 0x1401u32,
{
    glow::UNSIGNED_BYTE
}

} // verus!
