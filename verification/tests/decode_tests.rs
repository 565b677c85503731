use img2color::decode::{decode_and_resize, resized_height};
use img2color::errors::PipelineError;
use img2color::reduce::average_color;

fn png_bytes(w: u32, h: u32, px: [u8; 3]) -> Vec<u8> {
    let img = image::ImageBuffer::from_pixel(w, h, image::Rgb(px));
    let dynimg = image::DynamicImage::ImageRgb8(img);
    let mut buf: Vec<u8> = Vec::new();
    dynimg
        .write_to(&mut std::io::Cursor::new(&mut buf), image::ImageOutputFormat::Png)
        .unwrap();
    buf
}

#[test]
fn resized_height_preserves_aspect() {
    // round(30 * 50 / 100) = 15
    assert_eq!(resized_height(100, 30), 15);
    // round(1 * 50 / 4) = round(12.5) = 13, halves up
    assert_eq!(resized_height(4, 1), 13);
    // round(1 * 50 / 3) = round(16.67) = 17
    assert_eq!(resized_height(3, 1), 17);
    // square images keep the target width
    assert_eq!(resized_height(2, 2), 50);
    // extreme landscape rounds to zero and is floored at one row
    assert_eq!(resized_height(200, 1), 1);
}

#[test]
fn decode_uniform_png_gives_full_grid() {
    let bytes = png_bytes(2, 2, [10, 20, 30]);
    let grid = decode_and_resize(&bytes).unwrap();
    assert_eq!(grid.width, 50);
    assert_eq!(grid.height, 50);
    assert_eq!(grid.pixels.len(), 2500);
}

#[test]
fn uniform_png_reduces_to_its_color() {
    let bytes = png_bytes(2, 2, [10, 20, 30]);
    let grid = decode_and_resize(&bytes).unwrap();
    assert_eq!(average_color(&grid).as_str(), "#0A141E");
}

#[test]
fn wide_png_resizes_to_rounded_height() {
    let bytes = png_bytes(100, 30, [1, 2, 3]);
    let grid = decode_and_resize(&bytes).unwrap();
    assert_eq!(grid.width, 50);
    assert_eq!(grid.height, 15);
    assert_eq!(grid.pixels.len(), 50 * 15);
}

#[test]
fn garbage_bytes_fail_to_decode() {
    let bytes: Vec<u8> = vec![0, 1, 2, 3, 4, 5, 6, 7];
    assert_eq!(decode_and_resize(&bytes).unwrap_err(), PipelineError::DecodeError);
}

#[test]
fn empty_bytes_fail_to_decode() {
    let bytes: Vec<u8> = Vec::new();
    assert_eq!(decode_and_resize(&bytes).unwrap_err(), PipelineError::DecodeError);
}
