use pixelframe::image::assemble;
use pixelframe::image::load;
use pixelframe::image::DecodeError;

fn encode_png(width: u32, height: u32, color: png::ColorType, data: &[u8]) -> Vec<u8> {
    let mut out = Vec::new();
    {
        let mut encoder = png::Encoder::new(&mut out, width, height);
        encoder.set_color(color);
        encoder.set_depth(png::BitDepth::Eight);
        let mut writer = encoder.write_header().unwrap();
        writer.write_image_data(data).unwrap();
    }
    out
}

#[test]
fn load_decodes_a_small_rgba_image() {
    let pixels: Vec<u8> = (0..16).map(|k| 10 * k as u8).collect();
    let bytes = encode_png(2, 2, png::ColorType::Rgba, &pixels);
    let asset = load(&bytes).unwrap();
    assert_eq!(asset.width, 2);
    assert_eq!(asset.height, 2);
    assert_eq!(asset.pixels, pixels);
}

#[test]
fn load_rejects_garbage_bytes() {
    let bytes = vec![0x42; 64];
    assert_eq!(load(&bytes), Err(DecodeError::Malformed));
}

#[test]
fn load_rejects_a_truncated_stream() {
    let pixels: Vec<u8> = vec![1; 16];
    let mut bytes = encode_png(2, 2, png::ColorType::Rgba, &pixels);
    bytes.truncate(bytes.len() / 2);
    assert_eq!(load(&bytes), Err(DecodeError::Malformed));
}

#[test]
fn load_rejects_an_image_without_alpha() {
    // 3 bytes per pixel decode to 2 * 2 * 3 bytes, not 2 * 2 * 4
    let pixels: Vec<u8> = vec![9; 12];
    let bytes = encode_png(2, 2, png::ColorType::Rgb, &pixels);
    assert_eq!(load(&bytes), Err(DecodeError::SizeMismatch));
}

#[test]
fn load_rejects_a_frame_too_large_for_memory() {
    // a syntactically valid stream whose header declares a frame of
    // 0x7fffffff x 0x7fffffff RGBA pixels, far beyond any address space
    let bytes: Vec<u8> = vec![
        137, 80, 78, 71, 13, 10, 26, 10, 0, 0, 0, 13, 73, 72, 68, 82, 127, 255, 255, 255, 127,
        255, 255, 255, 8, 6, 0, 0, 0, 20, 201, 11, 102, 0, 0, 0, 0, 73, 68, 65, 84, 53, 175, 6,
        30, 0, 0, 0, 0, 73, 69, 78, 68, 174, 66, 96, 130,
    ];
    assert_eq!(load(&bytes), Err(DecodeError::TooLarge));
}

#[test]
fn assemble_accepts_an_exact_frame() {
    let buf: Vec<u8> = (0u8..16).collect();
    let asset = assemble(buf.clone(), 2, 2).unwrap();
    assert_eq!(asset.width, 2);
    assert_eq!(asset.height, 2);
    assert_eq!(asset.pixels, buf);
}

#[test]
fn assemble_rejects_zero_dimensions() {
    assert_eq!(assemble(vec![0; 16], 0, 2), Err(DecodeError::EmptyImage));
    assert_eq!(assemble(vec![0; 16], 2, 0), Err(DecodeError::EmptyImage));
}

#[test]
fn assemble_rejects_a_short_buffer() {
    assert_eq!(assemble(vec![0; 15], 2, 2), Err(DecodeError::SizeMismatch));
}

#[test]
fn assemble_rejects_an_oversized_buffer() {
    assert_eq!(assemble(vec![0; 17], 2, 2), Err(DecodeError::SizeMismatch));
}

#[test]
fn assemble_rejects_a_three_channel_frame() {
    // 2 x 2 pixels at 3 bytes per pixel: 12 bytes, not 16
    assert_eq!(assemble(vec![0; 12], 2, 2), Err(DecodeError::SizeMismatch));
}
