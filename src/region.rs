use vstd::prelude::*;

use crate::error::{CaptureError, TransferStage};
use crate::format::{bytes_per_pixel, color_format_from_dxgi, format_of_code, pixel_bytes, ColorFormat};

verus! {

/// A rectangle of a frame in pixels, as `[left, right) x [top, bottom)`.
#[derive(Clone, Copy, Debug, PartialEq, Eq, Structural)]
pub struct SourceBox {
    pub left: u32,
    pub top: u32,
    pub right: u32,
    pub bottom: u32,
}

/// The caller's crop rectangle as a sequence, if one was given.
pub open spec fn area_view(area: Option<Vec<i32>>) -> Option<Seq<i32>> {
    match area {
        Some(v) => Some(v@),
        None => None,
    }
}

/// A crop rectangle is honoured only when none of its coordinates is negative.
pub open spec fn crop_accepted(area: Seq<i32>) -> bool {
    forall|i: int| 0 <= i < area.len() ==> area[i] >= 0
}

/// The rectangle to transfer: the whole `width x height` frame, unless a crop
/// `(left, top, right, bottom)` with no negative coordinate was given, which is
/// then taken as it stands, without clamping to the frame.
pub open spec fn spec_source_box(width: u32, height: u32, area: Option<Seq<i32>>) -> SourceBox {
    match area {
        Some(a) => if crop_accepted(a) {
            SourceBox { left: a[0] as u32, top: a[1] as u32, right: a[2] as u32, bottom: a[3] as u32 }
        } else {
            SourceBox { left: 0, top: 0, right: width, bottom: height }
        },
        None => SourceBox { left: 0, top: 0, right: width, bottom: height },
    }
}

/// A rectangle lies within a `width x height` frame.
pub open spec fn box_within(b: SourceBox, width: u32, height: u32) -> bool {
    b.right <= width && b.bottom <= height
}

/// A rectangle covers at least one pixel.
pub open spec fn box_nonempty(b: SourceBox) -> bool {
    b.left < b.right && b.top < b.bottom
}

/// A crop given as a sequence holds exactly four coordinates.
pub open spec fn area_well_shaped(area: Option<Seq<i32>>) -> bool {
    match area {
        Some(a) => a.len() == 4,
        None => true,
    }
}

/// The rectangle to transfer from a `width x height` frame and an optional crop.
pub fn source_box(width: u32, height: u32, area: &Option<Vec<i32>>) -> (r: SourceBox)
    requires
        area_well_shaped(area_view(*area)),
    ensures
        r == spec_source_box(width, height, area_view(*area)),
{
    let mut b = SourceBox { left: 0, top: 0, right: width, bottom: height };
    if let Some(xywh) = area {
        let mut all_nonnegative = true;
        let mut i: usize = 0;
        while i < xywh.len()
            invariant
                0 <= i <= xywh@.len(),
                all_nonnegative == (forall|j: int| 0 <= j < i ==> xywh@[j] >= 0),
            decreases xywh@.len() - i,
        {
            if xywh[i] < 0 {
                all_nonnegative = false;
            }
            i = i + 1;
        }
        if all_nonnegative {
            b = SourceBox {
                left: xywh[0] as u32,
                top: xywh[1] as u32,
                right: xywh[2] as u32,
                bottom: xywh[3] as u32,
            };
        }
    }
    b
}

/// Width and height of the rectangle, or `Transfer(InvalidRegion)` exactly when
/// it covers no pixel.
pub fn region_extent(b: &SourceBox) -> (r: Result<(u32, u32), CaptureError>)
    ensures
        box_nonempty(*b) ==> r == Ok::<(u32, u32), CaptureError>(
            ((b.right - b.left) as u32, (b.bottom - b.top) as u32),
        ),
        !box_nonempty(*b) ==> r == Err::<(u32, u32), CaptureError>(
            CaptureError::Transfer(TransferStage::InvalidRegion),
        ),
{
    if b.left < b.right && b.top < b.bottom {
        Ok((b.right - b.left, b.bottom - b.top))
    } else {
        Err(CaptureError::Transfer(TransferStage::InvalidRegion))
    }
}

/// What the hardware reports of a freshly acquired frame.
#[derive(Clone, Copy, Debug, PartialEq, Eq, Structural)]
pub struct FrameDesc {
    pub width: u32,
    pub height: u32,
    /// The hardware's pixel-format code.
    pub format: i32,
}

/// What to copy out of an acquired frame: the source rectangle, the size of the
/// staging copy, and its pixel format.
#[derive(Clone, Copy, Debug, PartialEq, Eq, Structural)]
pub struct TransferPlan {
    pub source: SourceBox,
    pub width: u32,
    pub height: u32,
    /// The hardware's pixel-format code, which the staging copy keeps.
    pub format_code: i32,
    pub color_format: ColorFormat,
    pub bytes_per_pixel: usize,
}

/// The plan for a frame and an optional crop: an unsupported format is refused
/// first, then an empty or inverted rectangle, then one that reaches outside the
/// frame (the copy step cannot take it); otherwise the staging copy is exactly
/// the rectangle's size, in the frame's format.
pub open spec fn spec_plan(desc: FrameDesc, area: Option<Seq<i32>>) -> Result<TransferPlan, CaptureError> {
    match format_of_code(desc.format) {
        None => Err(CaptureError::UnsupportedFormat(desc.format)),
        Some(f) => {
            let b = spec_source_box(desc.width, desc.height, area);
            if !box_nonempty(b) {
                Err(CaptureError::Transfer(TransferStage::InvalidRegion))
            } else if !box_within(b, desc.width, desc.height) {
                Err(CaptureError::Transfer(TransferStage::SourceOutOfBounds))
            } else {
                Ok(
                    TransferPlan {
                        source: b,
                        width: (b.right - b.left) as u32,
                        height: (b.bottom - b.top) as u32,
                        format_code: desc.format,
                        color_format: f,
                        bytes_per_pixel: pixel_bytes(f) as usize,
                    },
                )
            }
        },
    }
}

/// A plan describes a staging copy of at least one pixel whose size matches its
/// source rectangle and whose pixel width matches its format.
pub open spec fn plan_wf(p: TransferPlan) -> bool {
    &&& p.source.left < p.source.right
    &&& p.source.top < p.source.bottom
    &&& p.width == p.source.right - p.source.left
    &&& p.height == p.source.bottom - p.source.top
    &&& format_of_code(p.format_code) == Some(p.color_format)
    &&& p.bytes_per_pixel == pixel_bytes(p.color_format)
}

/// Plans the transfer of an acquired frame, cropped to `area` when it is given
/// and holds no negative coordinate.
pub fn plan_transfer(desc: FrameDesc, area: &Option<Vec<i32>>) -> (r: Result<TransferPlan, CaptureError>)
    requires
        area_well_shaped(area_view(*area)),
    ensures
        r == spec_plan(desc, area_view(*area)),
        r is Ok ==> plan_wf(r->Ok_0),
{
    let color_format = match color_format_from_dxgi(desc.format) {
        Ok(f) => f,
        Err(e) => return Err(e),
    };
    let bpp = bytes_per_pixel(color_format);
    let b = source_box(desc.width, desc.height, area);
    match region_extent(&b) {
        Ok((width, height)) => if b.right > desc.width || b.bottom > desc.height {
            Err(CaptureError::Transfer(TransferStage::SourceOutOfBounds))
        } else {
            Ok(
                TransferPlan {
                    source: b,
                    width,
                    height,
                    format_code: desc.format,
                    color_format,
                    bytes_per_pixel: bpp,
                },
            )
        },
        Err(e) => Err(e),
    }
}

} // verus!
