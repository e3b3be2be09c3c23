use pixel_canvas::canvas::{Canvas, EncodeError};
use pixel_canvas::pixel::{Pixel, Rgb};

fn black(width: u32, height: u32) -> Canvas {
    let samples = vec![0u8; 3 * width as usize * height as usize];
    Canvas::from_raw(width, height, samples).unwrap()
}

fn decode(png: &[u8]) -> image::RgbImage {
    image::load_from_memory_with_format(png, image::ImageFormat::Png).unwrap().into_rgb8()
}

#[test]
fn from_raw_wants_three_samples_per_pixel() {
    assert!(Canvas::from_raw(2, 2, vec![0u8; 12]).is_some());
    assert!(Canvas::from_raw(2, 2, vec![0u8; 11]).is_none());
    assert!(Canvas::from_raw(2, 2, vec![0u8; 13]).is_none());
    assert!(Canvas::from_raw(0, 5, Vec::new()).is_some());
    assert!(Canvas::from_raw(1, 1, Vec::new()).is_none());
}

#[test]
fn from_raw_keeps_dimensions_and_samples() {
    let samples: Vec<u8> = (0u8..18).collect();
    let canvas = Canvas::from_raw(3, 2, samples.clone()).unwrap();
    assert_eq!(canvas.dimensions(), (3, 2));
    assert_eq!(canvas.as_raw(), &samples);
    assert_eq!(canvas.get_pixel(0, 0), Rgb { r: 0, g: 1, b: 2 });
    assert_eq!(canvas.get_pixel(2, 0), Rgb { r: 6, g: 7, b: 8 });
    assert_eq!(canvas.get_pixel(0, 1), Rgb { r: 9, g: 10, b: 11 });
    assert_eq!(canvas.get_pixel(2, 1), Rgb { r: 15, g: 16, b: 17 });
    assert_eq!(canvas.into_raw(), samples);
}

#[test]
fn put_pixel_writes_one_triple_in_row_major_order() {
    let mut canvas = black(3, 2);
    canvas.put_pixel(2, 1, Rgb { r: 10, g: 20, b: 30 });
    let mut expected = vec![0u8; 18];
    expected[15] = 10;
    expected[16] = 20;
    expected[17] = 30;
    assert_eq!(canvas.as_raw(), &expected);
    assert_eq!(canvas.get_pixel(2, 1), Rgb { r: 10, g: 20, b: 30 });
    assert_eq!(canvas.get_pixel(1, 1), Rgb { r: 0, g: 0, b: 0 });
    assert_eq!(canvas.dimensions(), (3, 2));
}

#[test]
fn put_pixel_at_the_corners() {
    let mut canvas = black(4, 3);
    canvas.put_pixel(0, 0, Rgb { r: 1, g: 2, b: 3 });
    canvas.put_pixel(3, 2, Rgb { r: 4, g: 5, b: 6 });
    assert_eq!(&canvas.as_raw()[0..3], &[1, 2, 3]);
    assert_eq!(&canvas.as_raw()[33..36], &[4, 5, 6]);
    assert_eq!(canvas.as_raw().iter().filter(|s| **s != 0).count(), 6);
}

#[test]
fn apply_batch_is_first_in_first_out() {
    let mut canvas = black(2, 2);
    let batch = vec![
        Pixel { x: 1, y: 0, r: 1, g: 1, b: 1 },
        Pixel { x: 0, y: 1, r: 9, g: 9, b: 9 },
        Pixel { x: 1, y: 0, r: 2, g: 3, b: 4 },
    ];
    canvas.apply_batch(&batch);
    assert_eq!(canvas.get_pixel(1, 0), Rgb { r: 2, g: 3, b: 4 });
    assert_eq!(canvas.get_pixel(0, 1), Rgb { r: 9, g: 9, b: 9 });
    assert_eq!(canvas.get_pixel(0, 0), Rgb { r: 0, g: 0, b: 0 });
    assert_eq!(canvas.get_pixel(1, 1), Rgb { r: 0, g: 0, b: 0 });
}

#[test]
fn apply_batch_of_nothing_changes_nothing() {
    let samples: Vec<u8> = (0u8..12).collect();
    let mut canvas = Canvas::from_raw(2, 2, samples.clone()).unwrap();
    canvas.apply_batch(&Vec::new());
    assert_eq!(canvas.into_raw(), samples);
}

#[test]
fn distinct_writes_land_whatever_their_order() {
    let writes = vec![
        Pixel { x: 0, y: 0, r: 255, g: 0, b: 0 },
        Pixel { x: 1, y: 0, r: 0, g: 255, b: 0 },
        Pixel { x: 0, y: 1, r: 0, g: 0, b: 255 },
    ];
    let mut forward = black(2, 2);
    forward.apply_batch(&writes);
    let mut backward = black(2, 2);
    let reversed: Vec<Pixel> = writes.iter().rev().copied().collect();
    backward.apply_batch(&reversed);
    assert_eq!(forward.as_raw(), backward.as_raw());
    for write in &writes {
        assert_eq!(forward.get_pixel(write.x, write.y), write.rgb());
    }
    assert_eq!(forward.get_pixel(1, 1), Rgb { r: 0, g: 0, b: 0 });
}

#[test]
fn encode_png_gives_a_png_that_decodes_to_the_canvas() {
    let samples: Vec<u8> = (0u8..27).map(|s| s.wrapping_mul(9)).collect();
    let canvas = Canvas::from_raw(3, 3, samples.clone()).unwrap();
    let png = canvas.encode_png().unwrap();
    assert_eq!(&png[0..8], &[0x89, b'P', b'N', b'G', 0x0d, 0x0a, 0x1a, 0x0a]);
    assert_ne!(png, samples);
    let decoded = decode(&png);
    assert_eq!(decoded.dimensions(), (3, 3));
    assert_eq!(decoded.into_raw(), samples);
}

#[test]
fn encode_png_is_a_function_of_the_canvas() {
    let first = black(5, 4).encode_png().unwrap();
    let second = black(5, 4).encode_png().unwrap();
    assert_eq!(first, second);
    let mut painted = black(5, 4);
    painted.put_pixel(4, 3, Rgb { r: 1, g: 2, b: 3 });
    assert_ne!(painted.encode_png().unwrap(), first);
}

#[test]
fn encode_png_refuses_an_empty_canvas() {
    let canvas = Canvas::from_raw(0, 0, Vec::new()).unwrap();
    assert_eq!(canvas.encode_png(), Err(EncodeError {}));
}

#[test]
fn pixel_is_within_follows_both_bounds() {
    let pixel = Pixel { x: 3, y: 7, r: 0, g: 0, b: 0 };
    assert!(pixel.is_within(4, 8));
    assert!(!pixel.is_within(3, 8));
    assert!(!pixel.is_within(4, 7));
    assert!(!pixel.is_within(0, 0));
    assert_eq!(Pixel { x: 0, y: 0, r: 7, g: 8, b: 9 }.rgb(), Rgb { r: 7, g: 8, b: 9 });
}
