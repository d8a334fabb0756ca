use frame_renderer::commands::Rgba8;
use frame_renderer::error::RenderError;
use frame_renderer::pipeline::Extent;
use frame_renderer::readback::{read_back, Frame, SubresourceLayout};

fn frame_parts(frame: &Frame) -> (u32, u32, Vec<u8>) {
    (frame.width(), frame.height(), frame.pixels().clone())
}

#[test]
fn rows_are_repacked_from_the_reported_pitch() {
    // two rows of two pixels, eight bytes each, sixteen bytes apart, from byte 3 on
    let mut mapped = vec![0xeeu8; 3 + 16 + 8];
    for i in 0..8 {
        mapped[3 + i] = i as u8;
        mapped[3 + 16 + i] = 100 + i as u8;
    }
    let layout = SubresourceLayout { offset: 3, row_pitch: 16 };
    let frame = read_back(&mapped, layout, Extent { width: 2, height: 2 }).unwrap();
    assert_eq!(
        frame_parts(&frame),
        (2, 2, vec![0, 1, 2, 3, 4, 5, 6, 7, 100, 101, 102, 103, 104, 105, 106, 107])
    );
    assert_eq!(frame.pixel(0, 0), Some(Rgba8 { red: 0, green: 1, blue: 2, alpha: 3 }));
    assert_eq!(frame.pixel(1, 0), Some(Rgba8 { red: 4, green: 5, blue: 6, alpha: 7 }));
    assert_eq!(frame.pixel(0, 1), Some(Rgba8 { red: 100, green: 101, blue: 102, alpha: 103 }));
    assert_eq!(frame.pixel(1, 1), Some(Rgba8 { red: 104, green: 105, blue: 106, alpha: 107 }));
    assert_eq!(frame.pixel(2, 0), None);
    assert_eq!(frame.pixel(0, 2), None);
}

#[test]
fn tight_layout_is_copied_as_it_is() {
    let mapped: Vec<u8> = (0..24).collect();
    let layout = SubresourceLayout { offset: 0, row_pitch: 8 };
    let frame = read_back(&mapped, layout, Extent { width: 2, height: 3 }).unwrap();
    assert_eq!(frame_parts(&frame), (2, 3, mapped));
}

#[test]
fn last_row_needs_no_padding_behind_it() {
    let mapped = vec![7u8; 16 + 4];
    let layout = SubresourceLayout { offset: 0, row_pitch: 16 };
    let frame = read_back(&mapped, layout, Extent { width: 1, height: 2 }).unwrap();
    assert_eq!(frame_parts(&frame), (1, 2, vec![7u8; 8]));
    let short = vec![7u8; 16 + 3];
    assert_eq!(
        read_back(&short, layout, Extent { width: 1, height: 2 }).err(),
        Some(RenderError::InvalidImageLayout)
    );
}

#[test]
fn layout_outside_the_mapping_is_refused() {
    let mapped = vec![0u8; 64];
    let extent = Extent { width: 2, height: 2 };
    for layout in [
        SubresourceLayout { offset: 49, row_pitch: 8 },
        SubresourceLayout { offset: 0, row_pitch: 57 },
        SubresourceLayout { offset: u64::MAX, row_pitch: 8 },
        SubresourceLayout { offset: 0, row_pitch: u64::MAX },
        SubresourceLayout { offset: u64::MAX, row_pitch: u64::MAX },
    ] {
        assert_eq!(
            read_back(&mapped, layout, extent).err(),
            Some(RenderError::InvalidImageLayout)
        );
    }
    assert!(read_back(&mapped, SubresourceLayout { offset: 48, row_pitch: 8 }, extent).is_ok());
    assert!(read_back(&mapped, SubresourceLayout { offset: 0, row_pitch: 56 }, extent).is_ok());
}

#[test]
fn pitch_narrower_than_a_row_is_refused() {
    let mapped = vec![0u8; 64];
    let layout = SubresourceLayout { offset: 0, row_pitch: 7 };
    assert_eq!(
        read_back(&mapped, layout, Extent { width: 2, height: 2 }).err(),
        Some(RenderError::InvalidImageLayout)
    );
    assert_eq!(
        read_back(&mapped, layout, Extent { width: 2, height: 0 }).err(),
        Some(RenderError::InvalidImageLayout)
    );
}

#[test]
fn empty_pictures_are_read_as_empty() {
    let mapped = vec![1u8; 8];
    let layout = SubresourceLayout { offset: 0, row_pitch: 4 };
    let no_rows = read_back(&mapped, layout, Extent { width: 1, height: 0 }).unwrap();
    assert_eq!(frame_parts(&no_rows), (1, 0, Vec::new()));
    let no_columns = read_back(&mapped, layout, Extent { width: 0, height: 2 }).unwrap();
    assert_eq!(frame_parts(&no_columns), (0, 2, Vec::new()));
    let nothing: Vec<u8> = Vec::new();
    let far = SubresourceLayout { offset: 1, row_pitch: 0 };
    assert_eq!(
        read_back(&nothing, far, Extent { width: 0, height: 1 }).err(),
        Some(RenderError::InvalidImageLayout)
    );
}

#[test]
fn frame_new_checks_the_number_of_bytes() {
    assert!(Frame::new(2, 2, vec![0u8; 16]).is_some());
    assert!(Frame::new(2, 2, vec![0u8; 15]).is_none());
    assert!(Frame::new(2, 2, vec![0u8; 17]).is_none());
    assert!(Frame::new(0, 5, Vec::new()).is_some());
    assert!(Frame::new(u32::MAX, u32::MAX, Vec::new()).is_none());
    let frame = Frame::new(1, 2, vec![1, 2, 3, 4, 5, 6, 7, 8]).unwrap();
    assert_eq!(frame_parts(&frame), (1, 2, vec![1, 2, 3, 4, 5, 6, 7, 8]));
    assert_eq!(frame.pixel(0, 1), Some(Rgba8 { red: 5, green: 6, blue: 7, alpha: 8 }));
}

#[test]
fn centre_and_corner_of_a_full_size_frame_are_found_where_the_layout_puts_them() {
    let width = 800u32;
    let height = 600u32;
    let pitch = 3328usize;
    let offset = 256usize;
    let clear = [0u8, 0, 0, 255];
    let blend = [64u8, 127, 64, 255];
    let mut mapped = vec![0x55u8; offset + pitch * height as usize];
    for y in 0..height as usize {
        for x in 0..width as usize {
            let at = offset + y * pitch + 4 * x;
            mapped[at..at + 4].copy_from_slice(&clear);
        }
    }
    let centre = offset + 300 * pitch + 4 * 400;
    mapped[centre..centre + 4].copy_from_slice(&blend);
    let layout = SubresourceLayout { offset: offset as u64, row_pitch: pitch as u64 };
    let frame = read_back(&mapped, layout, Extent { width, height }).unwrap();
    assert_eq!((frame.width(), frame.height()), (800, 600));
    assert_eq!(frame.pixels().len(), 800 * 600 * 4);
    assert_eq!(frame.pixel(400, 300), Some(Rgba8 { red: 64, green: 127, blue: 64, alpha: 255 }));
    assert_eq!(frame.pixel(0, 0), Some(Rgba8 { red: 0, green: 0, blue: 0, alpha: 255 }));
    assert_eq!(frame.pixel(799, 0), Some(Rgba8 { red: 0, green: 0, blue: 0, alpha: 255 }));
    assert_eq!(frame.pixel(799, 599), Some(Rgba8 { red: 0, green: 0, blue: 0, alpha: 255 }));
    assert_eq!(frame.pixel(800, 599), None);
    assert_eq!(frame.pixel(799, 600), None);
}
