use rust_ray_tracer::image::{scan_position, Image};
use rust_ray_tracer::ppm::Rgb;

#[test]
fn new_image_is_background() {
    let image = Image::new(4, 3);
    assert_eq!(image.width, 4);
    assert_eq!(image.height, 3);
    assert_eq!(image.inner, vec![0u8; 12]);
}

#[test]
fn center_circle_fills_cells_within_reach() {
    let mut image = Image::new(5, 5);
    image.fill_center_circle(2);
    let mut expected = vec![0u8; 25];
    for (x, y) in [(2, 2), (1, 2), (3, 2), (2, 1), (2, 3)] {
        expected[y * 5 + x] = 1;
    }
    assert_eq!(image.inner, expected);

    let mut image = Image::new(5, 5);
    image.fill_center_circle(0);
    assert_eq!(image.inner, vec![0u8; 25]);
}

#[test]
fn center_of_even_grid_is_right_of_middle() {
    let mut image = Image::new(4, 2);
    image.fill_center_circle(1);
    assert_eq!(image.inner, vec![0, 0, 0, 0, 0, 0, 1, 0]);
}

#[test]
fn scan_runs_top_row_first() {
    assert_eq!(scan_position(4, 3, 0), (0, 2));
    assert_eq!(scan_position(4, 3, 3), (3, 2));
    assert_eq!(scan_position(4, 3, 5), (1, 1));
    assert_eq!(scan_position(4, 3, 11), (3, 0));
}

#[test]
fn two_tone_text_follows_the_grid() {
    let mut image = Image::new(3, 1);
    image.inner[1] = 1;
    let fg = Rgb { r: 255, g: 255, b: 255 };
    let bg = Rgb { r: 0, g: 0, b: 0 };
    assert_eq!(
        image.two_tone_ppm(fg, bg),
        b"P3\n3 1\n255\n0 0 0\n255 255 255\n0 0 0\n".to_vec()
    );
}
