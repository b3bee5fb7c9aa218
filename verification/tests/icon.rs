use rboard::icon::{decode_icon, rgba_buffer_len};

fn encode_png(width: u32, height: u32, color: png::ColorType, data: &[u8]) -> Vec<u8> {
    let mut out = Vec::new();
    {
        let mut encoder = png::Encoder::new(&mut out, width, height);
        encoder.set_color(color);
        encoder.set_depth(png::BitDepth::Eight);
        let mut writer = encoder.write_header().unwrap();
        writer.write_image_data(data).unwrap();
    }
    out
}

#[test]
fn rgba_buffer_is_four_bytes_per_pixel() {
    assert_eq!(rgba_buffer_len(2, 3), Some(24));
    assert_eq!(rgba_buffer_len(0, 7), Some(0));
    assert_eq!(rgba_buffer_len(1, 1), Some(4));
}

#[test]
fn rgba_buffer_that_does_not_fit_is_refused() {
    if usize::BITS == 64 {
        assert_eq!(rgba_buffer_len(u32::MAX, u32::MAX), None);
        assert_eq!(rgba_buffer_len(65536, 65536), Some(1usize << 34));
    } else {
        assert_eq!(rgba_buffer_len(65536, 65536), None);
    }
}

#[test]
fn decodes_an_rgba_png() {
    let pixels: Vec<u8> = vec![1, 2, 3, 4, 5, 6, 7, 8];
    let png_bytes = encode_png(2, 1, png::ColorType::Rgba, &pixels);
    let icon = decode_icon(&png_bytes).expect("decoded");
    assert_eq!(icon.width, 2);
    assert_eq!(icon.height, 1);
    assert_eq!(icon.rgba, pixels);
}

#[test]
fn an_rgb_png_fills_the_front_of_the_buffer() {
    let pixels: Vec<u8> = vec![9, 8, 7, 6, 5, 4];
    let png_bytes = encode_png(2, 1, png::ColorType::Rgb, &pixels);
    let icon = decode_icon(&png_bytes).expect("decoded");
    assert_eq!(icon.rgba, vec![9, 8, 7, 6, 5, 4, 0, 0]);
}

#[test]
fn garbage_is_not_an_icon() {
    assert!(decode_icon(b"not a png").is_none());
    assert!(decode_icon(&[]).is_none());
}

#[test]
fn window_icon_is_converted_to_rgba8() {
    let pixels: Vec<u8> = vec![10, 20, 30, 40, 50, 60];
    let png_bytes = encode_png(1, 2, png::ColorType::Rgb, &pixels);
    let icon = rboard::icon::decode_window_icon(&png_bytes).expect("decoded");
    assert_eq!((icon.width, icon.height), (1, 2));
    assert_eq!(icon.rgba, vec![10, 20, 30, 255, 40, 50, 60, 255]);
    assert!(rboard::icon::decode_window_icon(b"nonsense").is_none());
}
