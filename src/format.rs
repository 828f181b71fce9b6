use vstd::prelude::*;

use crate::error::CaptureError;

verus! {

/// Hardware code of the 8-bit blue-green-red-alpha encoding.
pub const DXGI_FORMAT_B8G8R8A8_UNORM: i32 = 87;

/// Hardware code of the 8-bit red-green-blue-alpha encoding.
pub const DXGI_FORMAT_R8G8B8A8_UNORM: i32 = 28;

/// Hardware code of the 16-bit floating-point red-green-blue-alpha encoding.
pub const DXGI_FORMAT_R16G16B16A16_FLOAT: i32 = 10;

/// The pixel encodings a captured frame can have.
#[derive(Clone, Copy, Debug, PartialEq, Eq, Structural)]
pub enum ColorFormat {
    Bgra8,
    Rgba8,
    Rgba16F,
}

/// The tag under which a format is reported to callers.
pub open spec fn format_name(f: ColorFormat) -> Seq<char> {
    match f {
        ColorFormat::Bgra8 => "bgra8"@,
        ColorFormat::Rgba8 => "rgba8"@,
        ColorFormat::Rgba16F => "rgba16f"@,
    }
}

/// Bytes that one pixel of the format occupies.
pub open spec fn pixel_bytes(f: ColorFormat) -> nat {
    match f {
        ColorFormat::Bgra8 | ColorFormat::Rgba8 => 4,
        ColorFormat::Rgba16F => 8,
    }
}

/// The format that a hardware code stands for, if it is a supported one.
pub open spec fn format_of_code(code: i32) -> Option<ColorFormat> {
    if code == DXGI_FORMAT_B8G8R8A8_UNORM {
        Some(ColorFormat::Bgra8)
    } else if code == DXGI_FORMAT_R8G8B8A8_UNORM {
        Some(ColorFormat::Rgba8)
    } else if code == DXGI_FORMAT_R16G16B16A16_FLOAT {
        Some(ColorFormat::Rgba16F)
    } else {
        None
    }
}

/// The tag of a format: "bgra8", "rgba8" or "rgba16f".
pub fn color_format_to_str(color_format: ColorFormat) -> (r: &'static str)
    ensures
        r@ == format_name(color_format),
{
    match color_format {
        ColorFormat::Bgra8 => "bgra8",
        ColorFormat::Rgba8 => "rgba8",
        ColorFormat::Rgba16F => "rgba16f",
    }
}

/// Bytes per pixel: 4 for the 8-bit formats, 8 for the 16-bit one.
pub fn bytes_per_pixel(color_format: ColorFormat) -> (r: usize)
    ensures
        r == pixel_bytes(color_format),
{
    match color_format {
        ColorFormat::Bgra8 | ColorFormat::Rgba8 => 4,
        ColorFormat::Rgba16F => 8,
    }
}

/// Maps a hardware format code to a supported format, rejecting any other code.
pub fn color_format_from_dxgi(format: i32) -> (r: Result<ColorFormat, CaptureError>)
    ensures
        format_of_code(format) is Some ==> r == Ok::<ColorFormat, CaptureError>(
            format_of_code(format)->Some_0,
        ),
        format_of_code(format) is None ==> r == Err::<ColorFormat, CaptureError>(
            CaptureError::UnsupportedFormat(format),
        ),
{
    if format == DXGI_FORMAT_B8G8R8A8_UNORM {
        Ok(ColorFormat::Bgra8)
    } else if format == DXGI_FORMAT_R8G8B8A8_UNORM {
        Ok(ColorFormat::Rgba8)
    } else if format == DXGI_FORMAT_R16G16B16A16_FLOAT {
        Ok(ColorFormat::Rgba16F)
    } else {
        Err(CaptureError::UnsupportedFormat(format))
    }
}

} // verus!
