use img2color::grid::{Pixel, PixelGrid};
use img2color::reduce::{average_color, average_color_partitioned, channel_sums_range, partitioned_sums};

fn uniform_grid(w: u32, h: u32, r: u8, g: u8, b: u8) -> PixelGrid {
    let mut pixels: Vec<Pixel> = Vec::new();
    for _ in 0..(w as usize) * (h as usize) {
        pixels.push(Pixel { r, g, b });
    }
    PixelGrid::new(w, h, pixels).unwrap()
}

fn varied_grid(w: u32, h: u32) -> PixelGrid {
    let mut pixels: Vec<Pixel> = Vec::new();
    for i in 0..(w as usize) * (h as usize) {
        pixels.push(Pixel {
            r: (i * 7 % 256) as u8,
            g: (i * 13 % 256) as u8,
            b: (i * 31 % 256) as u8,
        });
    }
    PixelGrid::new(w, h, pixels).unwrap()
}

#[test]
fn uniform_two_by_two_average() {
    let g = uniform_grid(2, 2, 10, 20, 30);
    assert_eq!(average_color(&g).as_str(), "#0A141E");
}

#[test]
fn single_pixel_average() {
    let g = uniform_grid(1, 1, 255, 0, 171);
    assert_eq!(average_color(&g).as_str(), "#FF00AB");
}

#[test]
fn average_rounds_halves_up() {
    // channel sums 255 over 2 pixels: 127.5 rounds to 128
    let pixels = vec![Pixel { r: 0, g: 0, b: 0 }, Pixel { r: 255, g: 255, b: 255 }];
    let g = PixelGrid::new(2, 1, pixels).unwrap();
    assert_eq!(average_color(&g).as_str(), "#808080");
}

#[test]
fn average_rounds_below_half_down() {
    // channel sums 254 over 2 pixels: 127.0 stays 127
    let pixels = vec![Pixel { r: 0, g: 0, b: 0 }, Pixel { r: 254, g: 254, b: 254 }];
    let g = PixelGrid::new(2, 1, pixels).unwrap();
    assert_eq!(average_color(&g).as_str(), "#7F7F7F");
}

#[test]
fn grid_new_rejects_wrong_length() {
    let pixels = vec![Pixel { r: 0, g: 0, b: 0 }];
    assert!(PixelGrid::new(2, 2, pixels).is_none());
}

#[test]
fn partitioned_sums_match_sequential_for_every_worker_count() {
    let g = varied_grid(5, 7);
    let seq_sums = channel_sums_range(&g, 0, 35);
    for workers in 1..=40 {
        assert_eq!(partitioned_sums(&g, workers), seq_sums);
    }
}

#[test]
fn partitioned_average_matches_sequential() {
    let g = varied_grid(4, 9);
    let want = average_color(&g);
    for workers in 1..=12 {
        assert_eq!(average_color_partitioned(&g, workers), want);
    }
}
