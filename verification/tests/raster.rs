use gravily::raster::{Bitmap, Cell, ImageWidget, Rgb, UPPER_HALF_BLOCK};

const A: Rgb = Rgb { r: 10, g: 11, b: 12 };
const B: Rgb = Rgb { r: 20, g: 21, b: 22 };
const C: Rgb = Rgb { r: 30, g: 31, b: 32 };
const D: Rgb = Rgb { r: 40, g: 41, b: 42 };
const BLACK: Rgb = Rgb { r: 0, g: 0, b: 0 };

fn bitmap(width: u32, height: u32, pixels: &[Rgb]) -> Bitmap {
    let mut samples = Vec::new();
    for pixel in pixels {
        samples.push(pixel.r);
        samples.push(pixel.g);
        samples.push(pixel.b);
    }
    Bitmap::new(width, height, samples).unwrap()
}

fn cell(fg: Rgb, bg: Rgb) -> Cell {
    Cell { fg, bg, symbol: '\u{2580}' }
}

/// A picture in which every pixel tells its place.
fn gradient(width: u32, height: u32) -> Bitmap {
    let mut pixels = Vec::new();
    for y in 0..height {
        for x in 0..width {
            pixels.push(Rgb { r: x as u8, g: y as u8, b: 7 });
        }
    }
    bitmap(width, height, &pixels)
}

#[test]
fn the_symbol_is_the_upper_half_block() {
    assert_eq!(UPPER_HALF_BLOCK, '\u{2580}');
    assert_eq!(UPPER_HALF_BLOCK.to_string(), "\u{2580}");
}

#[test]
fn a_bitmap_needs_three_samples_for_every_pixel() {
    assert!(Bitmap::new(2, 2, vec![0; 12]).is_some());
    assert!(Bitmap::new(2, 2, vec![0; 11]).is_none());
    assert!(Bitmap::new(2, 2, vec![0; 13]).is_none());
    assert!(Bitmap::new(2, 2, vec![]).is_none());
    assert!(Bitmap::new(0, 0, vec![]).is_some());
    assert!(Bitmap::new(0, 5, vec![]).is_some());
    assert!(Bitmap::new(5, 0, vec![]).is_some());
    assert!(Bitmap::new(0, 0, vec![1]).is_none());
    assert!(Bitmap::new(u32::MAX, u32::MAX, vec![0; 3]).is_none());
    assert!(Bitmap::new(1, 1, vec![1, 2, 3]).is_some());
}

#[test]
fn a_bitmap_hands_out_its_pixels() {
    let picture = bitmap(2, 2, &[A, B, C, D]);
    assert_eq!(picture.width(), 2);
    assert_eq!(picture.height(), 2);
    assert_eq!(picture.pixel(0, 0), A);
    assert_eq!(picture.pixel(1, 0), B);
    assert_eq!(picture.pixel(0, 1), C);
    assert_eq!(picture.pixel(1, 1), D);
    let wide = bitmap(3, 1, &[A, B, C]);
    assert_eq!(wide.pixel(2, 0), C);
}

#[test]
fn halfblock_stacks_two_rows_in_one() {
    let picture = bitmap(2, 2, &[A, B, C, D]);
    assert_eq!(picture.halfblock(), vec![vec![cell(A, C), cell(B, D)]]);
    let tall = bitmap(1, 4, &[A, B, C, D]);
    assert_eq!(tall.halfblock(), vec![vec![cell(A, B)], vec![cell(C, D)]]);
}

#[test]
fn halfblock_of_an_odd_height_repeats_the_last_row() {
    let picture = bitmap(1, 3, &[A, B, C]);
    assert_eq!(picture.halfblock(), vec![vec![cell(A, B)], vec![cell(C, C)]]);
    let single = bitmap(2, 1, &[A, B]);
    assert_eq!(single.halfblock(), vec![vec![cell(A, A), cell(B, B)]]);
    let grid = gradient(3, 5).halfblock();
    assert_eq!(grid.len(), 3);
    for last in &grid[2] {
        assert_eq!(last.bg, last.fg);
    }
    for (x, first) in grid[0].iter().enumerate() {
        assert_eq!(first.fg, Rgb { r: x as u8, g: 0, b: 7 });
        assert_eq!(first.bg, Rgb { r: x as u8, g: 1, b: 7 });
    }
}

#[test]
fn halfblock_of_an_empty_picture_is_empty() {
    assert_eq!(bitmap(0, 0, &[]).halfblock(), Vec::<Vec<Cell>>::new());
    assert_eq!(bitmap(3, 0, &[]).halfblock(), Vec::<Vec<Cell>>::new());
    assert_eq!(bitmap(0, 3, &[]).halfblock(), vec![Vec::<Cell>::new(), Vec::new()]);
}

#[test]
fn render_fills_the_area_exactly() {
    let widget = ImageWidget::new(gradient(7, 5));
    for (width, height) in [(1u16, 1u16), (3, 2), (7, 5), (10, 4), (2, 9), (16, 16)] {
        assert!(widget.fits(width, height));
        let grid = widget.render(width, height);
        assert_eq!(grid.len(), height as usize);
        for row in &grid {
            assert_eq!(row.len(), width as usize);
            for cell in row {
                assert_eq!(cell.symbol, '\u{2580}');
            }
        }
    }
}

#[test]
fn render_into_no_area_draws_nothing() {
    let widget = ImageWidget::new(gradient(4, 4));
    assert_eq!(widget.render(0, 0), Vec::<Vec<Cell>>::new());
    assert_eq!(widget.render(3, 0), Vec::<Vec<Cell>>::new());
    assert_eq!(widget.render(0, 2), vec![Vec::<Cell>::new(), Vec::new()]);
}

#[test]
fn render_enlarges_by_repeating_pixels() {
    let widget = ImageWidget::new(bitmap(2, 2, &[A, B, C, D]));
    let grid = widget.render(4, 2);
    assert_eq!(
        grid,
        vec![
            vec![cell(A, A), cell(A, A), cell(B, B), cell(B, B)],
            vec![cell(C, C), cell(C, C), cell(D, D), cell(D, D)],
        ]
    );
}

#[test]
fn render_shrinks_by_picking_pixels() {
    let widget = ImageWidget::new(gradient(4, 4));
    let at = |x: u8, y: u8| Rgb { r: x, g: y, b: 7 };
    assert_eq!(
        widget.render(2, 1),
        vec![vec![cell(at(1, 1), at(1, 3)), cell(at(3, 1), at(3, 3))]]
    );
}

#[test]
fn render_at_the_pictures_own_size_keeps_every_pixel() {
    let picture = gradient(3, 4);
    let widget = ImageWidget::new(gradient(3, 4));
    assert_eq!(widget.render(3, 2), picture.halfblock());
}

#[test]
fn render_of_an_empty_picture_is_black() {
    let widget = ImageWidget::new(bitmap(0, 0, &[]));
    assert_eq!(widget.render(2, 1), vec![vec![cell(BLACK, BLACK), cell(BLACK, BLACK)]]);
}

#[test]
fn can_resample_on_this_machine() {
    let picture = gradient(4, 4);
    assert!(picture.can_resample(0, 0));
    assert!(picture.can_resample(80, 48));
    assert!(!picture.can_resample(u32::MAX, u32::MAX));
    assert!(ImageWidget::new(picture).fits(u16::MAX, 1));
}
