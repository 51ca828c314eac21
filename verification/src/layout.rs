//! Where the earth goes on the screen: the grid of tiles to download, the
//! size of the earth disc, and the two wallpaper layouts ("full": the whole
//! disc; "half": half of a disc larger than the screen).

use vstd::prelude::*;
use crate::raster::{RgbImage, ResizeFilter, resize, crop, place_image, shows, resizable, nearest_resized, gaussian_outcome};

verus! {

/// The side, in tiles, of the grid to download for a screen: 2 (a
/// 1100 x 1100 picture) when the shorter side of the screen is at most 1200
/// pixels, as on 1920 x 1200 and 1600 x 900 screens; 4 (2200 x 2200) when
/// it is more than 1200.
pub open spec fn spec_grid_dim(screen_width: int, screen_height: int) -> u32 {
    let shorter = if screen_width <= screen_height { screen_width } else { screen_height };
    if shorter <= 1200 { 2 } else { 4 }
}

/// The grid side to download for the "half" layout: always 4, since half a
/// disc as wide or as high as the screen is larger than 1100 pixels on any
/// desktop screen.
pub fn half_grid_dim() -> (dim: u32)
    ensures
        dim == 4,
{
    4
}

/// The grid side to download for the "full" layout.
pub fn grid_dim(screen_width: i32, screen_height: i32) -> (dim: u32)
    ensures
        dim == spec_grid_dim(screen_width as int, screen_height as int),
{
    let shorter = if screen_width <= screen_height { screen_width } else { screen_height };
    if shorter <= 1200 { 2 } else { 4 }
}

/// The grid is 2 or 4 tiles wide, and 4 only when both sides of the
/// screen are longer than 1200 pixels.
pub proof fn lemma_grid_dim(screen_width: int, screen_height: int)
    ensures
        spec_grid_dim(screen_width, screen_height) == 2 || spec_grid_dim(screen_width, screen_height) == 4,
        spec_grid_dim(screen_width, screen_height) == 4 <==> (screen_width > 1200 && screen_height > 1200),
{
}

/// The side of the earth square in the "full" layout. On a landscape
/// screen it is 87 percent of the height when the height is 1200 pixels
/// or more and 95 percent when it is less, rounded down, which leaves room for the
/// task bar; on a portrait or square screen it is the screen width.
pub open spec fn spec_full_size(screen_width: int, screen_height: int) -> int {
    if screen_height < screen_width {
        if screen_height >= 1200 {
            screen_height * 87 / 100
        } else {
            screen_height * 95 / 100
        }
    } else {
        screen_width
    }
}

/// The column of the left edge of the earth in the "full" layout: centred.
pub open spec fn spec_full_x(screen_width: int, screen_height: int) -> int {
    (screen_width - spec_full_size(screen_width, screen_height)) / 2
}

/// The row of the top edge of the earth in the "full" layout: a quarter of
/// the free height on screens taller than 1200 pixels, the top otherwise.
pub open spec fn spec_full_y(screen_width: int, screen_height: int) -> int {
    if screen_height > 1200 {
        (screen_height - spec_full_size(screen_width, screen_height)) / 4
    } else {
        0
    }
}

/// The side of the earth square in the "full" layout.
pub fn full_size(screen_width: i32, screen_height: i32) -> (size: u32)
    requires
        screen_width > 0,
        screen_height > 0,
    ensures
        size == spec_full_size(screen_width as int, screen_height as int),
{
    if screen_height < screen_width {
        let h = screen_height as u64;
        if screen_height >= 1200 {
            (h * 87 / 100) as u32
        } else {
            (h * 95 / 100) as u32
        }
    } else {
        screen_width as u32
    }
}

/// The side of the earth square in the "full" layout depends on the screen
/// width only on portrait screens: on a landscape screen it is the height
/// times 87/100 (height 1200 or more) or 95/100 (less), rounded down,
/// whatever the width; on a portrait or square screen it is the width.
pub proof fn lemma_full_size_by_height(screen_width: int, screen_height: int)
    requires
        screen_width > 0,
        screen_height > 0,
    ensures
        ({
            let size = spec_full_size(screen_width, screen_height);
            &&& screen_height < screen_width && screen_height >= 1200
                ==> size * 100 <= screen_height * 87 < size * 100 + 100
            &&& screen_height < screen_width && screen_height < 1200
                ==> size * 100 <= screen_height * 95 < size * 100 + 100
            &&& screen_height >= screen_width ==> size == screen_width
        }),
{
    vstd::arithmetic::div_mod::lemma_fundamental_div_mod(screen_height * 87, 100);
    vstd::arithmetic::div_mod::lemma_fundamental_div_mod(screen_height * 95, 100);
}

/// The top margin of the "full" layout is a quarter of the free height,
/// rounded down, on screens more than 1200 pixels high, and zero on others.
pub proof fn lemma_full_top_margin(screen_width: int, screen_height: int)
    requires
        screen_width > 0,
        screen_height > 0,
    ensures
        ({
            let free = screen_height - spec_full_size(screen_width, screen_height);
            let y = spec_full_y(screen_width, screen_height);
            &&& screen_height > 1200 ==> y * 4 <= free < y * 4 + 4
            &&& screen_height <= 1200 ==> y == 0
        }),
{
    let free = screen_height - spec_full_size(screen_width, screen_height);
    vstd::arithmetic::div_mod::lemma_fundamental_div_mod(free, 4);
}

/// The top margin of the landscape "half" layout is 3 percent of the
/// screen height, rounded down.
pub proof fn lemma_half_top_margin(screen_height: int)
    requires
        screen_height >= 0,
    ensures
        spec_half_top(screen_height) * 100 <= screen_height * 3 < spec_half_top(screen_height) * 100 + 100,
{
    vstd::arithmetic::div_mod::lemma_fundamental_div_mod(screen_height * 3, 100);
}

/// The earth square of the "full" layout lies inside the screen, centred
/// horizontally (the margins left and right differ by at most one pixel),
/// with a top margin no larger than the bottom one.
pub proof fn lemma_full_layout_fits(screen_width: int, screen_height: int)
    requires
        screen_width > 0,
        screen_height > 0,
    ensures
        ({
            let size = spec_full_size(screen_width, screen_height);
            let x = spec_full_x(screen_width, screen_height);
            let y = spec_full_y(screen_width, screen_height);
            &&& 0 <= size <= screen_width
            &&& size <= screen_height
            &&& 0 <= x && x + size <= screen_width
            &&& 0 <= y && y + size <= screen_height
            &&& 0 <= (screen_width - x - size) - x <= 1
            &&& y <= screen_height - y - size
        }),
{
}

/// The "full" wallpaper: the earth picture scaled (Gaussian filter) to the
/// square of `spec_full_size`, on a black screen-sized canvas at
/// (`spec_full_x`, `spec_full_y`).
pub fn compose_full(screen_width: i32, screen_height: i32, earth: &RgbImage) -> (wallpaper: RgbImage)
    requires
        screen_width > 0,
        screen_height > 0,
        spec_full_size(screen_width as int, screen_height as int) > 0,
        screen_width * screen_height * 3 <= usize::MAX,
        earth.wf(),
        resizable(earth.width, earth.height,
            spec_full_size(screen_width as int, screen_height as int) as u32,
            spec_full_size(screen_width as int, screen_height as int) as u32),
    ensures
        wallpaper.width == screen_width,
        wallpaper.height == screen_height,
        exists|scaled: RgbImage| {
            &&& scaled.wf()
            &&& scaled.width == spec_full_size(screen_width as int, screen_height as int)
            &&& scaled.height == spec_full_size(screen_width as int, screen_height as int)
            &&& gaussian_outcome(earth.data@, earth.width, earth.height, scaled.width, scaled.height,
                scaled.data@)
            &&& #[trigger] shows(wallpaper, scaled,
                spec_full_x(screen_width as int, screen_height as int),
                spec_full_y(screen_width as int, screen_height as int))
        },
{
    proof {
        lemma_full_layout_fits(screen_width as int, screen_height as int);
    }
    let size = full_size(screen_width, screen_height);
    let scaled = resize(earth, size, size, ResizeFilter::Gaussian);
    let w = screen_width as u32;
    let h = screen_height as u32;
    let x = (w - size) / 2;
    let y = if screen_height > 1200 { (h - size) / 4 } else { 0 };
    let wallpaper = place_image(w, h, &scaled, x, y);
    assert(shows(wallpaper, scaled,
        spec_full_x(screen_width as int, screen_height as int),
        spec_full_y(screen_width as int, screen_height as int)));
    wallpaper
}

/// Whether the "half" layout shows the right half of the earth: in the
/// morning (local hour before 12) the right half, in the afternoon the
/// left half.
pub open spec fn spec_shows_right_half(local_hour: int) -> bool {
    local_hour < 12
}

/// The column of the earth picture (scaled to the screen height) at which
/// the half shown on a portrait screen begins.
pub open spec fn spec_half_crop_x(screen_height: int, local_hour: int) -> int {
    if spec_shows_right_half(local_hour) {
        screen_height - screen_height / 2
    } else {
        0
    }
}

/// The left edge of the half earth on a portrait screen: centred.
pub open spec fn spec_half_x(screen_width: int, screen_height: int) -> int {
    (screen_width - screen_height / 2) / 2
}

/// The top margin of the earth on a landscape screen in the "half" layout:
/// 3 percent of the screen height, rounded down.
pub open spec fn spec_half_top(screen_height: int) -> int {
    screen_height * 3 / 100
}

/// Pixel `(x, y)`, channel `c`, of the "half" wallpaper on a portrait
/// screen: the earth is scaled with the box filter to a square as high as
/// the screen, and the right (morning) or left half of it is shown,
/// centred, on black.
pub open spec fn spec_half_portrait_pixel(earth: RgbImage, screen_width: int, screen_height: int,
    local_hour: int, x: int, y: int, c: int) -> u8
{
    let half = screen_height / 2;
    let left = spec_half_x(screen_width, screen_height);
    if left <= x < left + half {
        nearest_resized(earth.data@, earth.width, earth.height, screen_height as u32, screen_height as u32)[
            (y * screen_height + (x - left + spec_half_crop_x(screen_height, local_hour))) * 3 + c]
    } else {
        0
    }
}

/// On a portrait screen the half earth of the "half" layout lies inside
/// the screen, centred horizontally, and fills its height; the morning and
/// afternoon halves are the two halves of the scaled picture, side by side.
pub proof fn lemma_half_portrait_fits(screen_width: int, screen_height: int)
    requires
        screen_width > 0,
        0 < screen_height / 2 <= screen_width,
    ensures
        ({
            let half = screen_height / 2;
            let x = spec_half_x(screen_width, screen_height);
            &&& 0 <= x && x + half <= screen_width
            &&& 0 <= (screen_width - x - half) - x <= 1
            &&& spec_half_crop_x(screen_height, 11) + half == screen_height
            &&& spec_half_crop_x(screen_height, 12) == 0
            &&& spec_half_crop_x(screen_height, 12) + half <= spec_half_crop_x(screen_height, 11)
        }),
{
}

/// Over the whole day: from midnight to 11:59 the portrait "half" layout
/// shows the right half of the scaled earth (its columns from
/// `h - h / 2` on), from 12:00 to 23:59 the left half (from column 0).
pub proof fn lemma_half_by_hour(screen_height: int, local_hour: int)
    requires
        0 <= local_hour < 24,
    ensures
        local_hour < 12 ==> spec_half_crop_x(screen_height, local_hour) == screen_height - screen_height / 2,
        12 <= local_hour ==> spec_half_crop_x(screen_height, local_hour) == 0,
{
}

/// What the "half" layout needs to run on a screen: a landscape screen
/// scales the earth to a square as wide as the screen; a portrait screen
/// scales it to a square as high as the screen, and half of that square
/// must be at least one pixel wide and no wider than the screen.
pub open spec fn half_layout_fits(screen_width: int, screen_height: int, earth: RgbImage) -> bool {
    &&& screen_width > 0
    &&& screen_height > 0
    &&& screen_width * screen_height * 3 <= usize::MAX
    &&& earth.wf()
    &&& if screen_height < screen_width {
        resizable(earth.width, earth.height, screen_width as u32, screen_width as u32)
    } else {
        &&& 0 < screen_height / 2 <= screen_width
        &&& resizable(earth.width, earth.height, screen_height as u32, screen_height as u32)
    }
}

/// The "half" wallpaper. On a landscape screen the earth, scaled (Gaussian
/// filter) to the screen width, hangs from 3 percent below the top and its
/// lower part is cut off by the bottom of the screen. On a portrait screen
/// it is scaled (box filter) to the screen height and only one half is
/// shown, centred: the right half in the morning (local time before 12
/// o'clock), the left half in the afternoon.
pub fn compose_half(screen_width: i32, screen_height: i32, earth: &RgbImage, local_hour: u32) -> (wallpaper: RgbImage)
    requires
        half_layout_fits(screen_width as int, screen_height as int, *earth),
    ensures
        wallpaper.wf(),
        wallpaper.width == screen_width,
        wallpaper.height == screen_height,
        screen_height < screen_width ==> exists|scaled: RgbImage| {
            &&& scaled.wf()
            &&& scaled.width == screen_width
            &&& scaled.height == screen_width
            &&& gaussian_outcome(earth.data@, earth.width, earth.height, scaled.width, scaled.height,
                scaled.data@)
            &&& #[trigger] shows(wallpaper, scaled, 0, spec_half_top(screen_height as int))
        },
        screen_height >= screen_width ==> forall|x: int, y: int, c: int|
            0 <= x < screen_width && 0 <= y < screen_height && 0 <= c < 3
                ==> #[trigger] wallpaper.at(x, y, c) == spec_half_portrait_pixel(*earth,
                    screen_width as int, screen_height as int, local_hour as int, x, y, c),
{
    let w = screen_width as u32;
    let h = screen_height as u32;
    if screen_height < screen_width {
        let scaled = resize(earth, w, w, ResizeFilter::Gaussian);
        let top = ((h as u64) * 3 / 100) as u32;
        let wallpaper = place_image(w, h, &scaled, 0, top);
        assert(shows(wallpaper, scaled, 0, spec_half_top(screen_height as int)));
        wallpaper
    } else {
        let scaled = resize(earth, h, h, ResizeFilter::Nearest);
        let half = h / 2;
        let crop_x = if local_hour < 12 { h - half } else { 0 };
        let piece = crop(&scaled, crop_x, 0, half, h);
        let left = (w - half) / 2;
        let wallpaper = place_image(w, h, &piece, left, 0);
        proof {
            assert forall|x: int, y: int, c: int|
                0 <= x < screen_width && 0 <= y < screen_height && 0 <= c < 3
                implies #[trigger] wallpaper.at(x, y, c) == spec_half_portrait_pixel(*earth,
                    screen_width as int, screen_height as int, local_hour as int, x, y, c) by {
                assert(wallpaper.at(x, y, c) == crate::raster::placed_pixel(piece, left as int, 0, x, y, c));
                if left <= x < left + half {
                    assert(piece.at(x - left, y, c) == scaled.at(x - left + crop_x, y, c));
                }
            }
        }
        wallpaper
    }
}

} // verus!
