use vstd::prelude::*;

use crate::error::{CaptureError, TransferStage};
use crate::format::{color_format_to_str, format_name, pixel_bytes, ColorFormat};
use crate::region::{plan_wf, TransferPlan};

verus! {

/// The abstract state of a mapped frame. `mapping` is the owner of the staging
/// copy and of its CPU mapping: present while mapped, gone once released.
pub struct FrameView<M> {
    pub mapping: Option<M>,
    pub address: nat,
    pub len: nat,
    pub width: nat,
    pub height: nat,
    pub bytes_per_pixel: nat,
    pub row_pitch: nat,
    pub color_format: ColorFormat,
}

impl<M> FrameView<M> {
    pub open spec fn mapped(self) -> bool {
        self.mapping is Some
    }

    /// While mapped, the region holds `height` rows spaced `row_pitch` bytes
    /// apart at a non-null address; once released, the address and length are
    /// zero. A row always has room for its pixels.
    pub open spec fn wf(self) -> bool {
        &&& self.width > 0
        &&& self.height > 0
        &&& self.bytes_per_pixel == pixel_bytes(self.color_format)
        &&& self.row_pitch >= self.width * self.bytes_per_pixel
        &&& if self.mapped() {
            self.len == self.row_pitch * self.height && self.address != 0
        } else {
            self.len == 0 && self.address == 0
        }
    }

    /// The state after release: the mapping is handed back and the descriptor is void.
    pub open spec fn released(self) -> FrameView<M> {
        FrameView { mapping: None, address: 0, len: 0, ..self }
    }
}

/// Releasing a frame any number of times gives the state of releasing it once,
/// in which the length and address read zero and no mapping is left; a
/// well-formed frame stays well-formed.
pub proof fn lemma_release_idempotent<M>(v: FrameView<M>)
    ensures
        v.released().released() == v.released(),
        v.released().len == 0,
        v.released().address == 0,
        !v.released().mapped(),
        v.wf() ==> v.released().wf(),
{
}

/// Every well-formed frame has rows at least as wide as its pixels need.
pub proof fn lemma_row_holds_pixels<M>(v: FrameView<M>)
    requires
        v.wf(),
    ensures
        v.row_pitch >= v.width * v.bytes_per_pixel,
{
}

/// A captured frame whose pixels sit in CPU-readable memory until it is released.
pub struct NativeDxgiDuplicationFrame<M> {
    mapping: Option<M>,
    ptr: usize,
    len: usize,
    width: u32,
    height: u32,
    bytes_per_pixel: usize,
    row_pitch: usize,
    color_format: ColorFormat,
}

impl<M> View for NativeDxgiDuplicationFrame<M> {
    type V = FrameView<M>;

    closed spec fn view(&self) -> FrameView<M> {
        FrameView {
            mapping: self.mapping,
            address: self.ptr as nat,
            len: self.len as nat,
            width: self.width as nat,
            height: self.height as nat,
            bytes_per_pixel: self.bytes_per_pixel as nat,
            row_pitch: self.row_pitch as nat,
            color_format: self.color_format,
        }
    }
}

impl<M> NativeDxgiDuplicationFrame<M> {
    /// Takes ownership of the mapped staging copy described by `plan`, given the
    /// mapping's address and row stride. A null address or a stride too narrow for
    /// a row of pixels is refused, as is a total length that overflows `usize`; on
    /// refusal the mapping is dropped.
    pub fn new(plan: &TransferPlan, mapping: M, ptr: usize, row_pitch: u32) -> (r: Result<Self, CaptureError>)
        requires
            plan_wf(*plan),
        ensures
            ptr == 0 ==> r == Err::<Self, CaptureError>(CaptureError::Transfer(TransferStage::MapForRead)),
            ptr != 0 && (row_pitch as int) < plan.width * plan.bytes_per_pixel ==> r == Err::<Self, CaptureError>(
                CaptureError::Transfer(TransferStage::Layout),
            ),
            ptr != 0 && row_pitch >= plan.width * plan.bytes_per_pixel && row_pitch * plan.height
                > usize::MAX ==> r == Err::<Self, CaptureError>(CaptureError::Transfer(TransferStage::SizeOverflow)),
            ptr != 0 && row_pitch >= plan.width * plan.bytes_per_pixel && row_pitch * plan.height
                <= usize::MAX ==> r is Ok,
            r is Ok ==> {
                let v = r->Ok_0@;
                &&& v.wf()
                &&& v.mapping == Some(mapping)
                &&& v.address == ptr
                &&& v.len == row_pitch * plan.height
                &&& v.width == plan.width
                &&& v.height == plan.height
                &&& v.bytes_per_pixel == plan.bytes_per_pixel
                &&& v.row_pitch == row_pitch
                &&& v.color_format == plan.color_format
            },
    {
        if ptr == 0 {
            return Err(CaptureError::Transfer(TransferStage::MapForRead));
        }
        let pitch = row_pitch as usize;
        let row_bytes: u64 = (plan.width as u64) * (plan.bytes_per_pixel as u64);
        if (pitch as u64) < row_bytes {
            return Err(CaptureError::Transfer(TransferStage::Layout));
        }
        let len = match pitch.checked_mul(plan.height as usize) {
            Some(n) => n,
            None => return Err(CaptureError::Transfer(TransferStage::SizeOverflow)),
        };
        proof {
            assert(pitch >= plan.width * plan.bytes_per_pixel);
        }
        Ok(
            NativeDxgiDuplicationFrame {
                mapping: Some(mapping),
                ptr,
                len,
                width: plan.width,
                height: plan.height,
                bytes_per_pixel: plan.bytes_per_pixel,
                row_pitch: pitch,
                color_format: plan.color_format,
            },
        )
    }

    pub fn width(&self) -> (r: u32)
        ensures
            r == self@.width,
    {
        self.width
    }

    pub fn height(&self) -> (r: u32)
        ensures
            r == self@.height,
    {
        self.height
    }

    pub fn bytes_per_pixel(&self) -> (r: usize)
        ensures
            r == self@.bytes_per_pixel,
    {
        self.bytes_per_pixel
    }

    /// The pixel format's tag: "bgra8", "rgba8" or "rgba16f".
    pub fn color_format(&self) -> (r: &'static str)
        ensures
            r@ == format_name(self@.color_format),
    {
        color_format_to_str(self.color_format)
    }

    pub fn pixel_format(&self) -> (r: ColorFormat)
        ensures
            r == self@.color_format,
    {
        self.color_format
    }

    /// The row stride of the mapping in bytes, which may exceed
    /// `width * bytes_per_pixel`.
    pub fn bytes_per_row(&self) -> (r: usize)
        ensures
            r == self@.row_pitch,
    {
        self.row_pitch
    }

    /// The address of the mapped bytes; zero once released.
    pub fn buffer_ptr(&self) -> (r: usize)
        ensures
            r == self@.address,
            self@.wf() && !self@.mapped() ==> r == 0,
    {
        self.ptr
    }

    /// The number of mapped bytes; zero once released.
    pub fn buffer_len(&self) -> (r: usize)
        ensures
            r == self@.len,
            self@.wf() && !self@.mapped() ==> r == 0,
    {
        self.len
    }

    pub fn is_mapped(&self) -> (r: bool)
        ensures
            r == self@.mapped(),
    {
        self.mapping.is_some()
    }

    /// Address and length of the mapped bytes, for a reader that copies them or
    /// views them in place; `UseAfterRelease` once the frame is released.
    pub fn buffer_region(&self) -> (r: Result<(usize, usize), CaptureError>)
        ensures
            self@.mapped() ==> r == Ok::<(usize, usize), CaptureError>(
                (self@.address as usize, self@.len as usize),
            ),
            !self@.mapped() ==> r == Err::<(usize, usize), CaptureError>(CaptureError::UseAfterRelease),
    {
        if self.mapping.is_some() {
            Ok((self.ptr, self.len))
        } else {
            Err(CaptureError::UseAfterRelease)
        }
    }

    /// Voids the descriptor and hands back the mapping's owner, whose disposal
    /// unmaps and frees the staging copy. Only the first call returns it: later
    /// calls return `None` and change nothing.
    pub fn release(&mut self) -> (r: Option<M>)
        ensures
            r == old(self)@.mapping,
            final(self)@ == old(self)@.released(),
            old(self)@.wf() ==> final(self)@.wf(),
    {
        let taken = self.mapping.take();
        self.ptr = 0;
        self.len = 0;
        taken
    }
}

} // verus!
