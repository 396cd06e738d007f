use nanohat_oled::{render, OledError, BITMAP_LEN, IMAGE_LEN};

const WIDTH: usize = 128;

#[test]
fn render_all_zero_image_is_blank() {
    let image = vec![0u8; IMAGE_LEN];
    for threshold in [1u8, 100, 255] {
        let bitmap = render(&image, threshold).unwrap();
        assert_eq!(bitmap.len(), BITMAP_LEN);
        assert!(bitmap.iter().all(|b| *b == 0));
    }
}

#[test]
fn render_all_max_image_with_threshold_one_is_full() {
    let image = vec![255u8; IMAGE_LEN];
    let bitmap = render(&image, 1).unwrap();
    assert_eq!(bitmap.len(), BITMAP_LEN);
    assert!(bitmap.iter().all(|b| *b == 0xff));
}

#[test]
fn render_threshold_zero_lights_everything() {
    let image = vec![0u8; IMAGE_LEN];
    let bitmap = render(&image, 0).unwrap();
    assert!(bitmap.iter().all(|b| *b == 0xff));
}

#[test]
fn render_bits_follow_pixels() {
    let image: Vec<u8> = (0..IMAGE_LEN).map(|i| ((i * 37 + i / 128) % 256) as u8).collect();
    let threshold = 128u8;
    let bitmap = render(&image, threshold).unwrap();
    assert_eq!(bitmap.len(), WIDTH * 8);
    for page in 0..8 {
        for row in 0..8 {
            for column in 0..WIDTH {
                let pixel = image[(page * 8 + row) * WIDTH + column];
                let bit = (bitmap[page * WIDTH + column] >> row) & 1;
                assert_eq!(bit == 1, pixel >= threshold);
            }
        }
    }
}

#[test]
fn render_pixel_equal_to_threshold_is_on() {
    let mut image = vec![0u8; IMAGE_LEN];
    // page 1, row 3, column 5
    image[(8 + 3) * WIDTH + 5] = 90;
    // page 0, row 7, column 0, just under the threshold
    image[7 * WIDTH] = 89;
    let bitmap = render(&image, 90).unwrap();
    assert_eq!(bitmap[WIDTH + 5], 0b0000_1000);
    assert_eq!(bitmap[0], 0);
    assert_eq!(bitmap.iter().filter(|b| **b != 0).count(), 1);
}

#[test]
fn render_bottom_row_of_page_is_high_bit() {
    let mut image = vec![0u8; IMAGE_LEN];
    image[7 * WIDTH + 127] = 200;
    image[0] = 200;
    let bitmap = render(&image, 100).unwrap();
    assert_eq!(bitmap[127], 0x80);
    assert_eq!(bitmap[0], 0x01);
}

#[test]
fn render_is_deterministic_and_leaves_input_alone() {
    let image: Vec<u8> = (0..IMAGE_LEN).map(|i| (i % 251) as u8).collect();
    let copy = image.clone();
    let a = render(&image, 77).unwrap();
    let b = render(&image, 77).unwrap();
    assert_eq!(a, b);
    assert_eq!(image, copy);
}

#[test]
fn render_refuses_wrong_size() {
    let short = vec![0u8; IMAGE_LEN - 1];
    assert_eq!(render(&short, 1), Err(OledError::InvalidImageSize { len: IMAGE_LEN - 1 }));
    let long = vec![0u8; IMAGE_LEN + 1];
    assert_eq!(render(&long, 1), Err(OledError::InvalidImageSize { len: IMAGE_LEN + 1 }));
    assert_eq!(render(&[], 1), Err(OledError::InvalidImageSize { len: 0 }));
}
