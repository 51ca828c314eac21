use himawari_wallpaper::layout::{compose_full, compose_half, full_size, grid_dim, half_grid_dim};
use himawari_wallpaper::raster::{place_image, RgbImage};

fn solid(width: u32, height: u32, rgb: [u8; 3]) -> RgbImage {
    let mut data = Vec::new();
    for _ in 0..(width * height) {
        data.extend_from_slice(&rgb);
    }
    RgbImage::from_raw(width, height, data).unwrap()
}

fn pixel(img: &RgbImage, x: u32, y: u32) -> [u8; 3] {
    let i = ((y * img.width + x) * 3) as usize;
    [img.data[i], img.data[i + 1], img.data[i + 2]]
}

#[test]
fn from_raw_checks_length() {
    assert!(RgbImage::from_raw(2, 2, vec![0; 12]).is_some());
    assert!(RgbImage::from_raw(2, 2, vec![0; 11]).is_none());
    assert!(RgbImage::from_raw(2, 2, vec![0; 13]).is_none());
    assert!(RgbImage::from_raw(0, 5, vec![]).is_some());
}

#[test]
fn black_is_all_zero() {
    let img = RgbImage::black(3, 2);
    assert_eq!(img.width, 3);
    assert_eq!(img.height, 2);
    assert_eq!(img.data, vec![0; 18]);
}

#[test]
fn place_image_puts_pixels_at_offset() {
    let img = solid(2, 2, [9, 8, 7]);
    let canvas = place_image(5, 4, &img, 1, 2);
    for y in 0..4 {
        for x in 0..5 {
            let inside = (1..3).contains(&x) && (2..4).contains(&y);
            let expect = if inside { [9, 8, 7] } else { [0, 0, 0] };
            assert_eq!(pixel(&canvas, x, y), expect, "pixel {} {}", x, y);
        }
    }
}

#[test]
fn place_image_cuts_rows_below_canvas() {
    let mut data = Vec::new();
    for row in 0..4u8 {
        for _ in 0..2 {
            data.extend_from_slice(&[row, row, row]);
        }
    }
    let img = RgbImage::from_raw(2, 4, data).unwrap();
    let canvas = place_image(2, 3, &img, 0, 1);
    assert_eq!(pixel(&canvas, 0, 0), [0, 0, 0]);
    assert_eq!(pixel(&canvas, 1, 1), [0, 0, 0]);
    assert_eq!(pixel(&canvas, 0, 2), [1, 1, 1]);
    assert_eq!(canvas.data.len(), 18);
}

#[test]
fn grid_dim_by_shorter_side() {
    assert_eq!(grid_dim(1920, 1080), 2);
    assert_eq!(grid_dim(1080, 1920), 2);
    assert_eq!(grid_dim(2560, 1440), 4);
    assert_eq!(grid_dim(1200, 1200), 2);
    assert_eq!(grid_dim(1920, 1200), 2);
    assert_eq!(grid_dim(1600, 900), 2);
    assert_eq!(grid_dim(1201, 1201), 4);
    assert_eq!(grid_dim(1199, 3000), 2);
}

#[test]
fn full_size_examples() {
    assert_eq!(full_size(1920, 1080), 1026);
    assert_eq!(full_size(1920, 1200), 1044);
    assert_eq!(full_size(1920, 1199), 1139);
    assert_eq!(full_size(2560, 1440), 1252);
    assert_eq!(full_size(1080, 1920), 1080);
    assert_eq!(full_size(800, 800), 800);
}

#[test]
fn full_size_matches_float_scaling() {
    // The earth side is the screen height scaled by 0.87 or 0.95 in
    // floating point, truncated; the integer percentages give the same.
    let mut heights: Vec<i32> = (1..200_000).collect();
    heights.extend([i32::MAX - 1, 2_000_000_000, 1_234_567_800, 999_999_900]);
    for h in heights {
        let w = if h < i32::MAX { h + 1 } else { h };
        if h >= w {
            continue;
        }
        let scale = if h >= 1200 { 0.87 } else { 0.95 };
        let by_float = (h as f64 * scale) as u32;
        assert_eq!(full_size(w, h), by_float, "height {}", h);
        let top_by_float = (h as f64 * 0.03) as usize;
        assert_eq!((h as u64 * 3 / 100) as usize, top_by_float, "height {}", h);
    }
}

#[test]
fn compose_full_landscape_centres_earth() {
    let earth = solid(4, 4, [200, 100, 50]);
    let wallpaper = compose_full(10, 6, &earth);
    assert_eq!(wallpaper.width, 10);
    assert_eq!(wallpaper.height, 6);
    assert_eq!(wallpaper.data.len(), 180);
    // side 6 * 95 / 100 = 5, left (10 - 5) / 2 = 2, top 0
    assert_eq!(pixel(&wallpaper, 0, 0), [0, 0, 0]);
    assert_eq!(pixel(&wallpaper, 1, 2), [0, 0, 0]);
    assert_eq!(pixel(&wallpaper, 7, 2), [0, 0, 0]);
    assert_eq!(pixel(&wallpaper, 2, 5), [0, 0, 0]);
    assert_ne!(pixel(&wallpaper, 2, 0), [0, 0, 0]);
    assert_ne!(pixel(&wallpaper, 6, 4), [0, 0, 0]);
}

#[test]
fn compose_full_tall_screen_uses_top_quarter() {
    let earth = solid(2, 2, [10, 20, 30]);
    let wallpaper = compose_full(10, 1300, &earth);
    // portrait: side 10, top (1300 - 10) / 4 = 322
    assert_eq!(pixel(&wallpaper, 5, 321), [0, 0, 0]);
    assert_ne!(pixel(&wallpaper, 5, 322), [0, 0, 0]);
    assert_ne!(pixel(&wallpaper, 5, 331), [0, 0, 0]);
    assert_eq!(pixel(&wallpaper, 5, 332), [0, 0, 0]);
}

fn two_colour_earth() -> RgbImage {
    // left two columns red, right two columns blue
    let mut data = Vec::new();
    for _ in 0..4 {
        data.extend_from_slice(&[255, 0, 0, 255, 0, 0, 0, 0, 255, 0, 0, 255]);
    }
    RgbImage::from_raw(4, 4, data).unwrap()
}

#[test]
fn compose_half_portrait_morning_shows_right_half() {
    let wallpaper = compose_half(6, 8, &two_colour_earth(), 11);
    for y in 0..8 {
        assert_eq!(pixel(&wallpaper, 0, y), [0, 0, 0]);
        for x in 1..5 {
            assert_eq!(pixel(&wallpaper, x, y), [0, 0, 255], "pixel {} {}", x, y);
        }
        assert_eq!(pixel(&wallpaper, 5, y), [0, 0, 0]);
    }
}

#[test]
fn compose_half_portrait_afternoon_shows_left_half() {
    let wallpaper = compose_half(6, 8, &two_colour_earth(), 13);
    for y in 0..8 {
        for x in 1..5 {
            assert_eq!(pixel(&wallpaper, x, y), [255, 0, 0], "pixel {} {}", x, y);
        }
    }
    let noon = compose_half(6, 8, &two_colour_earth(), 12);
    assert_eq!(pixel(&noon, 2, 3), [255, 0, 0]);
    let morning = compose_half(6, 8, &two_colour_earth(), 0);
    assert_eq!(pixel(&morning, 2, 3), [0, 0, 255]);
}

#[test]
fn compose_half_landscape_hangs_from_top_margin() {
    let earth = solid(3, 3, [1, 2, 3]);
    let wallpaper = compose_half(40, 35, &earth, 0);
    assert_eq!(wallpaper.width, 40);
    assert_eq!(wallpaper.height, 35);
    // top margin 35 * 3 / 100 = 1, disc 40 x 40 from there down
    assert_eq!(pixel(&wallpaper, 0, 0), [0, 0, 0]);
    assert_eq!(pixel(&wallpaper, 39, 0), [0, 0, 0]);
    assert_ne!(pixel(&wallpaper, 0, 1), [0, 0, 0]);
    assert_ne!(pixel(&wallpaper, 39, 34), [0, 0, 0]);
}

#[test]
fn compose_half_landscape_cuts_bottom() {
    let earth = solid(3, 3, [1, 2, 3]);
    let wallpaper = compose_half(100, 40, &earth, 0);
    // disc 100 x 100 from row 1 down, cut at row 40
    assert_eq!(pixel(&wallpaper, 50, 0), [0, 0, 0]);
    assert_ne!(pixel(&wallpaper, 50, 39), [0, 0, 0]);
    assert_eq!(wallpaper.data.len(), 100 * 40 * 3);
}

#[test]
fn half_layout_downloads_four_by_four() {
    assert_eq!(half_grid_dim(), 4);
}
