use cgfs::canvas::Canvas;
use cgfs::color::ColorPack;

const RED: ColorPack = ColorPack { r: 255, g: 0, b: 0 };
const BLUE: ColorPack = ColorPack { r: 0, g: 0, b: 255 };
const GRAY: ColorPack = ColorPack { r: 7, g: 7, b: 7 };

fn pixel_of(data: &[u8], width: u32, cx: u32, cy: u32) -> (u8, u8, u8) {
    let i = (cy as usize * width as usize + cx as usize) * 3;
    (data[i], data[i + 1], data[i + 2])
}

#[test]
fn new_canvas_is_background() {
    let canvas = Canvas::new(4, 3, GRAY);
    assert_eq!(canvas.get_width(), 4);
    assert_eq!(canvas.get_height(), 3);
    let data = canvas.data();
    assert_eq!(data.len(), 36);
    for chunk in data.chunks(3) {
        assert_eq!(chunk, &[7, 7, 7]);
    }
}

#[test]
fn set_pixel_is_row_major() {
    let mut canvas = Canvas::new(4, 3, GRAY);
    canvas.set_pixel(1, 2, RED);
    let data = canvas.data();
    assert_eq!(pixel_of(&data, 4, 1, 2), (255, 0, 0));
    assert_eq!(pixel_of(&data, 4, 2, 1), (7, 7, 7));
    assert_eq!(pixel_of(&data, 4, 0, 0), (7, 7, 7));
}

#[test]
fn put_pixel_is_centered() {
    // centered (0, 0) lands on column width/2, row height/2
    let mut canvas = Canvas::new(4, 4, GRAY);
    canvas.put_pixel(0, 0, RED);
    // centered (-2, 2) lands on column 0, row 0
    canvas.put_pixel(-2, 2, BLUE);
    let data = canvas.data();
    assert_eq!(pixel_of(&data, 4, 2, 2), (255, 0, 0));
    assert_eq!(pixel_of(&data, 4, 0, 0), (0, 0, 255));
}

#[test]
fn put_pixel_off_grid_changes_nothing() {
    let mut canvas = Canvas::new(4, 4, GRAY);
    canvas.put_pixel(100, 0, RED);
    canvas.put_pixel(0, -100, RED);
    canvas.put_pixel(-3, 0, RED);
    canvas.put_pixel(0, 3, RED);
    let data = canvas.data();
    for chunk in data.chunks(3) {
        assert_eq!(chunk, &[7, 7, 7]);
    }
}

#[test]
fn depth_test_takes_nearer_keys_only() {
    let mut canvas = Canvas::new(4, 4, GRAY);
    // the fresh buffer holds key 0 everywhere
    assert!(canvas.update_depth_buffer(0, 0, 5));
    assert!(!canvas.update_depth_buffer(0, 0, 3));
    assert!(!canvas.update_depth_buffer(0, 0, 5));
    assert!(canvas.update_depth_buffer(0, 0, 7));
    // off the grid the test always fails
    assert!(!canvas.update_depth_buffer(100, 0, 50));
}

#[test]
fn fill_scanline_paints_behind_depth_test() {
    let mut canvas = Canvas::new(5, 3, GRAY);
    // row 0 centered is canvas row height/2 = 1; columns -1..=1 are 1..=3
    canvas.fill_scanline(0, -1, 1, &vec![4, 4, 4], RED);
    let data = canvas.data();
    assert_eq!(pixel_of(&data, 5, 1, 1), (255, 0, 0));
    assert_eq!(pixel_of(&data, 5, 2, 1), (255, 0, 0));
    assert_eq!(pixel_of(&data, 5, 3, 1), (255, 0, 0));
    assert_eq!(pixel_of(&data, 5, 0, 1), (7, 7, 7));
    assert_eq!(pixel_of(&data, 5, 4, 1), (7, 7, 7));
    assert_eq!(pixel_of(&data, 5, 2, 0), (7, 7, 7));

    // a farther span (smaller keys) loses everywhere it overlaps
    canvas.fill_scanline(0, -1, 1, &vec![6, 2, 2], BLUE);
    let data = canvas.data();
    assert_eq!(pixel_of(&data, 5, 1, 1), (0, 0, 255));
    assert_eq!(pixel_of(&data, 5, 2, 1), (255, 0, 0));
    assert_eq!(pixel_of(&data, 5, 3, 1), (255, 0, 0));
}

#[test]
fn fill_scanline_clips_to_the_grid() {
    let mut canvas = Canvas::new(3, 3, GRAY);
    // columns -5..=5 reach far off a 3-wide canvas; only -1..=1 land on it
    let izs: Vec<i64> = (0..11).map(|_| 1).collect();
    canvas.fill_scanline(0, -5, 5, &izs, RED);
    let data = canvas.data();
    assert_eq!(pixel_of(&data, 3, 0, 1), (255, 0, 0));
    assert_eq!(pixel_of(&data, 3, 1, 1), (255, 0, 0));
    assert_eq!(pixel_of(&data, 3, 2, 1), (255, 0, 0));
    assert_eq!(pixel_of(&data, 3, 0, 0), (7, 7, 7));
    assert_eq!(pixel_of(&data, 3, 2, 2), (7, 7, 7));
}
