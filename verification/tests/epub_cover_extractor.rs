use ez_books::epub_cover_extractor::{
    cover_dimensions, cover_or_raw, extract_cover, fit_dimensions, process_cover_image,
    COVER_HEIGHT, COVER_WIDTH,
};
use ez_books::error::EzBooksError;
use image::{GenericImageView, ImageFormat};
use std::io::Cursor;

fn png_of(width: u32, height: u32) -> Vec<u8> {
    let mut png_data = Vec::new();
    let img = image::RgbaImage::from_pixel(width, height, image::Rgba([100, 100, 100, 255]));
    img.write_to(&mut Cursor::new(&mut png_data), ImageFormat::Png)
        .unwrap();
    png_data
}

#[test]
fn should_calculate_resize_dimensions_for_wide_image() {
    // Given: A wide image (landscape)
    let width = 800u32;
    let height = 400u32;

    // When: Calculating new dimensions
    let (new_width, new_height) = cover_dimensions(width, height);

    // Then: Should constrain by width
    assert_eq!(new_width, COVER_WIDTH);
    assert!(new_height <= COVER_HEIGHT);
}

#[test]
fn should_calculate_resize_dimensions_for_tall_image() {
    // Given: A tall image (portrait)
    let width = 400u32;
    let height = 800u32;

    // When: Calculating new dimensions
    let (new_width, new_height) = cover_dimensions(width, height);

    // Then: Should constrain by height
    assert_eq!(new_height, COVER_HEIGHT);
    assert!(new_width <= COVER_WIDTH);
}

#[test]
fn should_process_valid_image() {
    // Given: A simple 1x1 red PNG image
    let mut png_data = Vec::new();
    let img = image::RgbaImage::from_pixel(1, 1, image::Rgba([255, 0, 0, 255]));
    img.write_to(&mut Cursor::new(&mut png_data), ImageFormat::Png)
        .unwrap();

    // When: Processing the image
    let result = process_cover_image(&png_data);

    // Then: Should succeed and return JPEG data
    assert!(result.is_ok());
    let jpeg_data = result.unwrap();
    assert!(!jpeg_data.is_empty());
}

#[test]
fn should_return_error_for_invalid_image_data() {
    // Given: Invalid image data
    let invalid_data = b"Not an image";

    // When: Processing the invalid data
    let result = process_cover_image(invalid_data);

    // Then: Should return error
    assert!(result.is_err());
    assert!(matches!(
        result.unwrap_err(),
        EzBooksError::ImageProcessing(_)
    ));
}

#[test]
fn should_maintain_aspect_ratio() {
    // Given: A square image
    let size = 500u32;
    let img = image::RgbaImage::from_pixel(size, size, image::Rgba([100, 100, 100, 255]));
    let mut png_data = Vec::new();
    img.write_to(&mut Cursor::new(&mut png_data), ImageFormat::Png)
        .unwrap();

    // When: Processing the image
    let result = process_cover_image(&png_data);

    // Then: Should succeed
    assert!(result.is_ok());
    let jpeg_data = result.unwrap();

    // And: Should be able to load the processed image
    let processed_img = image::load_from_memory(&jpeg_data).unwrap();
    let (w, h) = processed_img.dimensions();

    // Should maintain square aspect ratio
    assert_eq!(w, h);
    assert!(w <= COVER_WIDTH);
    assert!(h <= COVER_HEIGHT);
}

#[test]
fn fitted_sizes_are_exact() {
    assert_eq!(cover_dimensions(800, 400), (300, 150));
    assert_eq!(cover_dimensions(400, 800), (225, 450));
    assert_eq!(cover_dimensions(500, 500), (300, 300));
    assert_eq!(cover_dimensions(300, 450), (300, 450));
    assert_eq!(cover_dimensions(600, 900), (300, 450));
    assert_eq!(cover_dimensions(1, 1), (300, 300));
    assert_eq!(cover_dimensions(2, 3), (300, 450));
    // 300 * 401 / 800 = 150.375
    assert_eq!(cover_dimensions(800, 401), (300, 150));
    // 300 * 3 / 8 = 112.5: a half rounds up
    assert_eq!(cover_dimensions(8, 3), (300, 113));
    // 450 * 1 / 4 = 112.5
    assert_eq!(cover_dimensions(1, 4), (113, 450));
    assert_eq!(cover_dimensions(10000, 1), (300, 0));
    assert_eq!(cover_dimensions(1, 10000), (0, 450));
    assert_eq!(cover_dimensions(u32::MAX, u32::MAX), (300, 300));
    assert_eq!(cover_dimensions(u32::MAX, 1), (300, 0));
    assert_eq!(cover_dimensions(0, 5), (0, 450));
    assert_eq!(fit_dimensions(100, 50, 10, 10), (10, 5));
    assert_eq!(fit_dimensions(50, 100, 10, 10), (5, 10));
    assert_eq!(fit_dimensions(7, 7, 0, 0), (0, 0));
    assert_eq!(
        fit_dimensions(u32::MAX, u32::MAX, u32::MAX, u32::MAX),
        (u32::MAX, u32::MAX)
    );
}

#[test]
fn fitted_sizes_lie_in_the_box_and_touch_it() {
    for width in [1u32, 2, 3, 7, 100, 299, 300, 301, 450, 451, 1000, 4096] {
        for height in [1u32, 2, 5, 11, 100, 449, 450, 451, 640, 3000] {
            let (w, h) = cover_dimensions(width, height);
            assert!(w <= COVER_WIDTH);
            assert!(h <= COVER_HEIGHT);
            assert!(w == COVER_WIDTH || h == COVER_HEIGHT);
            // the proportions are kept to within half a pixel
            let (w, h, sw, sh) = (w as i64, h as i64, width as i64, height as i64);
            if sw * 450 > 300 * sh {
                assert!((2 * (h * sw - w * sh)).abs() <= sw);
            } else {
                assert!((2 * (w * sh - h * sw)).abs() <= sh);
            }
        }
    }
}

#[test]
fn a_processed_cover_has_the_fitted_size() {
    for (width, height) in [(800u32, 400u32), (400, 800), (40, 30), (10, 200), (300, 450)] {
        let jpeg = process_cover_image(&png_of(width, height)).unwrap();
        let decoded = image::load_from_memory(&jpeg).unwrap();
        assert_eq!(decoded.color().has_alpha(), false);
        assert_eq!(decoded.dimensions(), cover_dimensions(width, height));
        assert_eq!(image::guess_format(&jpeg).unwrap(), ImageFormat::Jpeg);
    }
}

#[test]
fn an_undecodable_cover_names_the_step_that_failed() {
    match process_cover_image(b"Not an image") {
        Err(EzBooksError::ImageProcessing(detail)) => {
            assert!(detail.starts_with("Failed to load image: "));
            assert!(detail.len() > "Failed to load image: ".len());
        }
        other => panic!("{:?}", other),
    }
    match process_cover_image(&[]) {
        Err(EzBooksError::ImageProcessing(detail)) => {
            assert!(detail.starts_with("Failed to load image: "))
        }
        other => panic!("{:?}", other),
    }
}

#[test]
fn a_cover_that_breaks_off_names_the_step_that_failed() {
    let mut png = png_of(40, 30);
    png.truncate(60);
    match process_cover_image(&png) {
        Err(EzBooksError::ImageProcessing(detail)) => {
            assert!(detail.starts_with("Failed to load image: "), "{}", detail)
        }
        other => panic!("{:?}", other),
    }
    assert_eq!(cover_or_raw(png.clone()), png);
}

#[test]
fn a_cover_too_flat_to_fit_cannot_be_written() {
    match process_cover_image(&png_of(2000, 1)) {
        Err(EzBooksError::ImageProcessing(detail)) => {
            assert_eq!(detail, "Failed to encode JPEG: the fitted image has no pixels")
        }
        other => panic!("{:?}", other),
    }
}

#[test]
fn a_cover_that_cannot_be_normalized_is_kept_as_it_is() {
    let raw = b"Not an image".to_vec();
    assert_eq!(cover_or_raw(raw.clone()), raw);
    assert_eq!(extract_cover(Ok(Some(raw.clone()))).unwrap(), Some(raw));

    let png = png_of(20, 20);
    let stored = cover_or_raw(png.clone());
    assert_ne!(stored, png);
    assert_eq!(image::guess_format(&stored).unwrap(), ImageFormat::Jpeg);
    assert_eq!(image::load_from_memory(&stored).unwrap().dimensions(), (300, 300));
}

#[test]
fn a_document_without_cover_has_no_cover() {
    assert_eq!(extract_cover(Ok(None)).unwrap(), None);
}

#[test]
fn a_document_that_cannot_be_opened_has_no_cover_but_an_error() {
    match extract_cover(Err("Invalid EPub".to_string())) {
        Err(EzBooksError::EpubParse(detail)) => {
            assert_eq!(detail, "Failed to open EPUB: Invalid EPub")
        }
        other => panic!("{:?}", other),
    }
}
