use dxgi_capture::error::{CaptureError, TransferStage};
use dxgi_capture::format::{
    bytes_per_pixel, color_format_from_dxgi, color_format_to_str, ColorFormat, DXGI_FORMAT_B8G8R8A8_UNORM,
    DXGI_FORMAT_R16G16B16A16_FLOAT, DXGI_FORMAT_R8G8B8A8_UNORM,
};
use dxgi_capture::frame::NativeDxgiDuplicationFrame;
use dxgi_capture::region::{plan_transfer, region_extent, source_box, FrameDesc, SourceBox, TransferPlan};
use dxgi_capture::session::{FrameOutcome, NativeDxgiDuplication};

fn bgra_desc(width: u32, height: u32) -> FrameDesc {
    FrameDesc { width, height, format: DXGI_FORMAT_B8G8R8A8_UNORM }
}

fn session() -> NativeDxgiDuplication<u32, &'static str> {
    NativeDxgiDuplication::new(Some(0u32), Some("first")).unwrap()
}

fn mapped_frame(plan: &TransferPlan, row_pitch: u32) -> NativeDxgiDuplicationFrame<String> {
    NativeDxgiDuplicationFrame::new(plan, String::from("staging"), 0x1000, row_pitch).unwrap()
}

#[test]
fn format_table_codes() {
    assert_eq!(color_format_from_dxgi(DXGI_FORMAT_B8G8R8A8_UNORM), Ok(ColorFormat::Bgra8));
    assert_eq!(color_format_from_dxgi(DXGI_FORMAT_R8G8B8A8_UNORM), Ok(ColorFormat::Rgba8));
    assert_eq!(color_format_from_dxgi(DXGI_FORMAT_R16G16B16A16_FLOAT), Ok(ColorFormat::Rgba16F));
    assert_eq!(color_format_from_dxgi(87), Ok(ColorFormat::Bgra8));
    assert_eq!(color_format_from_dxgi(28), Ok(ColorFormat::Rgba8));
    assert_eq!(color_format_from_dxgi(10), Ok(ColorFormat::Rgba16F));
    assert_eq!(color_format_from_dxgi(24), Err(CaptureError::UnsupportedFormat(24)));
    assert_eq!(color_format_from_dxgi(0), Err(CaptureError::UnsupportedFormat(0)));
}

#[test]
fn format_table_names_and_widths() {
    assert_eq!(color_format_to_str(ColorFormat::Bgra8), "bgra8");
    assert_eq!(color_format_to_str(ColorFormat::Rgba8), "rgba8");
    assert_eq!(color_format_to_str(ColorFormat::Rgba16F), "rgba16f");
    assert_eq!(bytes_per_pixel(ColorFormat::Bgra8), 4);
    assert_eq!(bytes_per_pixel(ColorFormat::Rgba8), 4);
    assert_eq!(bytes_per_pixel(ColorFormat::Rgba16F), 8);
}

#[test]
fn source_box_defaults_to_full_frame() {
    let b = source_box(1920, 1080, &None);
    assert_eq!(b, SourceBox { left: 0, top: 0, right: 1920, bottom: 1080 });
}

#[test]
fn source_box_takes_crop_verbatim() {
    let b = source_box(1920, 1080, &Some(vec![10, 20, 3000, 4000]));
    assert_eq!(b, SourceBox { left: 10, top: 20, right: 3000, bottom: 4000 });
}

#[test]
fn source_box_ignores_negative_crop() {
    let b = source_box(640, 480, &Some(vec![10, -1, 110, 60]));
    assert_eq!(b, SourceBox { left: 0, top: 0, right: 640, bottom: 480 });
}

#[test]
fn region_extent_of_valid_and_inverted_boxes() {
    assert_eq!(region_extent(&SourceBox { left: 10, top: 10, right: 110, bottom: 60 }), Ok((100, 50)));
    let invalid = Err(CaptureError::Transfer(TransferStage::InvalidRegion));
    assert_eq!(region_extent(&SourceBox { left: 50, top: 10, right: 50, bottom: 60 }), invalid);
    assert_eq!(region_extent(&SourceBox { left: 60, top: 10, right: 50, bottom: 60 }), invalid);
    assert_eq!(region_extent(&SourceBox { left: 0, top: 60, right: 50, bottom: 60 }), invalid);
    assert_eq!(region_extent(&SourceBox { left: 0, top: 70, right: 50, bottom: 60 }), invalid);
}

#[test]
fn crop_yields_requested_size() {
    let mut s = session();
    let plan = s
        .acquire_next_frame(FrameOutcome::Ready(bgra_desc(1920, 1080)), Some(vec![10, 10, 110, 60]))
        .unwrap()
        .unwrap();
    assert_eq!(plan.source, SourceBox { left: 10, top: 10, right: 110, bottom: 60 });
    let frame = mapped_frame(&plan, 512);
    assert_eq!(frame.width(), 100);
    assert_eq!(frame.height(), 50);
    assert_eq!(frame.buffer_len(), 512 * 50);
}

#[test]
fn inverted_or_empty_crop_is_transfer_error() {
    let mut s = session();
    let invalid = Err(CaptureError::Transfer(TransferStage::InvalidRegion));
    let ready = FrameOutcome::Ready(bgra_desc(1920, 1080));
    assert_eq!(s.acquire_next_frame(ready, Some(vec![110, 10, 10, 60])), invalid);
    assert_eq!(s.acquire_next_frame(ready, Some(vec![10, 60, 110, 10])), invalid);
    assert_eq!(s.acquire_next_frame(ready, Some(vec![10, 10, 10, 60])), invalid);
    assert_eq!(s.acquire_next_frame(ready, Some(vec![10, 10, 110, 10])), invalid);
    assert!(!s.is_lost());
}

#[test]
fn empty_frame_is_transfer_error() {
    let plan = plan_transfer(bgra_desc(0, 1080), &None);
    assert_eq!(plan, Err(CaptureError::Transfer(TransferStage::InvalidRegion)));
}

#[test]
fn full_frame_plan() {
    let plan = plan_transfer(FrameDesc { width: 800, height: 600, format: 10 }, &None).unwrap();
    assert_eq!(plan.width, 800);
    assert_eq!(plan.height, 600);
    assert_eq!(plan.color_format, ColorFormat::Rgba16F);
    assert_eq!(plan.bytes_per_pixel, 8);
    assert_eq!(plan.format_code, 10);
}

#[test]
fn bgra8_source_reports_format() {
    let mut s = session();
    let plan = s.acquire_next_frame(FrameOutcome::Ready(bgra_desc(64, 32)), None).unwrap().unwrap();
    let frame = mapped_frame(&plan, 256);
    assert_eq!(frame.bytes_per_pixel(), 4);
    assert_eq!(frame.color_format(), "bgra8");
    assert_eq!(frame.pixel_format(), ColorFormat::Bgra8);
}

#[test]
fn unknown_format_is_refused_before_transfer() {
    let mut s = session();
    let r = s.acquire_next_frame(FrameOutcome::Ready(FrameDesc { width: 64, height: 32, format: 2 }), None);
    assert_eq!(r, Err(CaptureError::UnsupportedFormat(2)));
}

#[test]
fn timeout_is_no_frame() {
    let mut s = session();
    assert_eq!(s.acquire_next_frame(FrameOutcome::Timeout, None), Ok(None));
    assert!(!s.is_lost());
}

#[test]
fn other_failure_is_acquire_failed() {
    let mut s = session();
    assert_eq!(s.acquire_next_frame(FrameOutcome::Failed, None), Err(CaptureError::AcquireFailed));
    assert!(!s.is_lost());
}

#[test]
fn access_lost_until_recreated() {
    let mut s = session();
    let ready = FrameOutcome::Ready(bgra_desc(64, 32));
    assert_eq!(s.acquire_next_frame(FrameOutcome::AccessLost, None), Err(CaptureError::AccessLost));
    assert!(s.is_lost());
    assert_eq!(s.acquire_next_frame(ready, None), Err(CaptureError::AccessLost));
    assert_eq!(s.acquire_next_frame(FrameOutcome::Timeout, None), Err(CaptureError::AccessLost));
    assert_eq!(s.recreate(None), Err(CaptureError::SessionCreate));
    assert!(s.is_lost());
    assert_eq!(s.acquire_next_frame(ready, None), Err(CaptureError::AccessLost));
    assert_eq!(s.recreate(Some("second")), Ok(()));
    assert!(!s.is_lost());
    assert_eq!(*s.duplication(), "second");
    assert_eq!(*s.monitor(), 0);
    let plan = s.acquire_next_frame(ready, None).unwrap().unwrap();
    assert_eq!((plan.width, plan.height), (64, 32));
}

#[test]
fn switch_to_invalid_display_keeps_session() {
    let mut s = session();
    assert_eq!(s.switch_monitor(None, Some("other")), Err(CaptureError::DisplayResolution));
    assert_eq!(*s.monitor(), 0);
    assert_eq!(*s.duplication(), "first");
    assert_eq!(s.switch_monitor(Some(3), None), Err(CaptureError::SessionCreate));
    assert_eq!(*s.monitor(), 0);
    assert_eq!(*s.duplication(), "first");
    assert_eq!(s.switch_monitor(Some(2), Some("second")), Ok(()));
    assert_eq!(*s.monitor(), 2);
    assert_eq!(*s.duplication(), "second");
}

#[test]
fn switch_clears_lost_access() {
    let mut s = session();
    let _ = s.acquire_next_frame(FrameOutcome::AccessLost, None);
    assert_eq!(s.switch_monitor(Some(1), Some("second")), Ok(()));
    assert_eq!(s.acquire_next_frame(FrameOutcome::Timeout, None), Ok(None));
}

#[test]
fn open_errors() {
    let r: Result<NativeDxgiDuplication<u32, u8>, CaptureError> = NativeDxgiDuplication::new(None, Some(1));
    assert!(matches!(r, Err(CaptureError::DisplayResolution)));
    let r: Result<NativeDxgiDuplication<u32, u8>, CaptureError> = NativeDxgiDuplication::new(Some(0), None);
    assert!(matches!(r, Err(CaptureError::SessionCreate)));
}

#[test]
fn crop_outside_frame_is_transfer_error() {
    let mut s = session();
    let outside = Err(CaptureError::Transfer(TransferStage::SourceOutOfBounds));
    let ready = FrameOutcome::Ready(bgra_desc(200, 100));
    assert_eq!(s.acquire_next_frame(ready, Some(vec![10, 10, 201, 60])), outside);
    assert_eq!(s.acquire_next_frame(ready, Some(vec![10, 10, 110, 101])), outside);
    let edge = s.acquire_next_frame(ready, Some(vec![0, 0, 200, 100])).unwrap().unwrap();
    assert_eq!((edge.width, edge.height), (200, 100));
}

#[test]
fn negative_crop_falls_back_to_full_frame() {
    let mut s = session();
    let plan = s.acquire_next_frame(FrameOutcome::Ready(bgra_desc(200, 100)), Some(vec![-5, 0, 10, 10])).unwrap().unwrap();
    assert_eq!(plan.source, SourceBox { left: 0, top: 0, right: 200, bottom: 100 });
    assert_eq!((plan.width, plan.height), (200, 100));
}

#[test]
fn row_stride_may_exceed_packing() {
    let plan = plan_transfer(bgra_desc(100, 50), &None).unwrap();
    let frame = mapped_frame(&plan, 448);
    assert_eq!(frame.bytes_per_row(), 448);
    assert!(frame.bytes_per_row() >= frame.width() as usize * frame.bytes_per_pixel());
    assert_eq!(frame.buffer_len(), 448 * 50);
    assert_eq!(frame.buffer_ptr(), 0x1000);
}

#[test]
fn narrow_row_stride_is_refused() {
    let plan = plan_transfer(bgra_desc(100, 50), &None).unwrap();
    let r = NativeDxgiDuplicationFrame::new(&plan, (), 0x1000, 399);
    assert!(matches!(r, Err(CaptureError::Transfer(TransferStage::Layout))));
    let ok = NativeDxgiDuplicationFrame::new(&plan, (), 0x1000, 400);
    assert!(ok.is_ok());
}

#[test]
fn null_mapping_is_refused() {
    let plan = plan_transfer(bgra_desc(100, 50), &None).unwrap();
    let r = NativeDxgiDuplicationFrame::new(&plan, (), 0, 400);
    assert!(matches!(r, Err(CaptureError::Transfer(TransferStage::MapForRead))));
}

#[test]
fn oversized_mapping_is_refused() {
    let plan = plan_transfer(bgra_desc(1, u32::MAX), &None).unwrap();
    let r = NativeDxgiDuplicationFrame::new(&plan, (), 0x1000, u32::MAX);
    if usize::MAX as u128 >= (u32::MAX as u128) * (u32::MAX as u128) {
        assert!(r.is_ok());
    } else {
        assert!(matches!(r, Err(CaptureError::Transfer(TransferStage::SizeOverflow))));
    }
}

#[test]
fn release_voids_descriptor() {
    let plan = plan_transfer(bgra_desc(100, 50), &None).unwrap();
    let mut frame = mapped_frame(&plan, 400);
    assert!(frame.is_mapped());
    assert_eq!(frame.buffer_region(), Ok((0x1000, 400 * 50)));
    assert_eq!(frame.release(), Some(String::from("staging")));
    assert!(!frame.is_mapped());
    assert_eq!(frame.buffer_len(), 0);
    assert_eq!(frame.buffer_ptr(), 0);
    assert_eq!(frame.buffer_region(), Err(CaptureError::UseAfterRelease));
    assert_eq!(frame.width(), 100);
    assert_eq!(frame.height(), 50);
    assert_eq!(frame.bytes_per_row(), 400);
}

#[test]
fn release_twice_is_no_op() {
    let plan = plan_transfer(bgra_desc(8, 8), &None).unwrap();
    let mut frame = mapped_frame(&plan, 32);
    assert!(frame.release().is_some());
    assert_eq!(frame.release(), None);
    assert_eq!(frame.release(), None);
    assert_eq!(frame.buffer_len(), 0);
    assert_eq!(frame.buffer_region(), Err(CaptureError::UseAfterRelease));
}

#[test]
fn buffer_region_is_stable_while_mapped() {
    let plan = plan_transfer(bgra_desc(8, 8), &None).unwrap();
    let frame = mapped_frame(&plan, 32);
    assert_eq!(frame.buffer_region(), frame.buffer_region());
    assert_eq!(frame.buffer_region(), Ok((0x1000, 256)));
}
