use frame_renderer::encode::encode_frame;
use frame_renderer::error::RenderError;
use frame_renderer::pipeline::Extent;
use frame_renderer::readback::{read_back, Frame, SubresourceLayout};

fn decode(file: &[u8]) -> (u32, u32, png::ColorType, png::BitDepth, Vec<u8>) {
    let decoder = png::Decoder::new(file);
    let (info, mut reader) = decoder.read_info().unwrap();
    let mut pixels = vec![0u8; info.buffer_size()];
    reader.next_frame(&mut pixels).unwrap();
    (info.width, info.height, info.color_type, info.bit_depth, pixels)
}

fn gradient(width: u32, height: u32) -> Vec<u8> {
    let mut pixels = Vec::new();
    for y in 0..height {
        for x in 0..width {
            pixels.push((x * 255 / width.max(1)) as u8);
            pixels.push((y * 255 / height.max(1)) as u8);
            pixels.push(((x + y) % 256) as u8);
            pixels.push(255);
        }
    }
    pixels
}

#[test]
fn encoded_file_is_a_png_of_the_frame() {
    let pixels = gradient(5, 3);
    let frame = Frame::new(5, 3, pixels.clone()).unwrap();
    let file = encode_frame(&frame).unwrap();
    assert_eq!(&file[..8], &[137, 80, 78, 71, 13, 10, 26, 10]);
    assert_ne!(file, pixels);
    assert_eq!(decode(&file), (5, 3, png::ColorType::RGBA, png::BitDepth::Eight, pixels));
}

#[test]
fn encoding_is_repeatable() {
    let frame = Frame::new(16, 9, gradient(16, 9)).unwrap();
    let first = encode_frame(&frame).unwrap();
    let second = encode_frame(&frame).unwrap();
    assert_eq!(first, second);
}

#[test]
fn full_size_frame_survives_readback_and_encoding() {
    let width = 800u32;
    let height = 600u32;
    let pitch = 4 * width as usize + 64;
    let tight = gradient(width, height);
    let mut mapped = vec![0xabu8; 128 + pitch * height as usize];
    for y in 0..height as usize {
        let row = &tight[y * 3200..(y + 1) * 3200];
        mapped[128 + y * pitch..128 + y * pitch + 3200].copy_from_slice(row);
    }
    let layout = SubresourceLayout { offset: 128, row_pitch: pitch as u64 };
    let frame = read_back(&mapped, layout, Extent { width, height }).unwrap();
    assert_eq!(frame.pixels(), &tight);
    let file = encode_frame(&frame).unwrap();
    let (w, h, color, depth, pixels) = decode(&file);
    assert_eq!((w, h, color, depth), (800, 600, png::ColorType::RGBA, png::BitDepth::Eight));
    assert!(pixels == tight);
}

#[test]
fn empty_frames_are_not_encoded() {
    let no_rows = Frame::new(4, 0, Vec::new()).unwrap();
    assert_eq!(encode_frame(&no_rows), Err(RenderError::EncodingFailed));
    let no_columns = Frame::new(0, 4, Vec::new()).unwrap();
    assert_eq!(encode_frame(&no_columns), Err(RenderError::EncodingFailed));
}
