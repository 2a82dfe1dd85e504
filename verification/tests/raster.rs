use facefinder::error::DetectError;
use facefinder::raster::{image_file, Raster};

#[test]
fn base64_text_gives_the_bytes_of_the_file() {
    assert_eq!(image_file("aGVsbG8=").unwrap(), b"hello".to_vec());
    assert_eq!(image_file("AAEC/f7/").unwrap(), vec![0u8, 1, 2, 253, 254, 255]);
    assert_eq!(image_file("").unwrap(), Vec::<u8>::new());
}

#[test]
fn base64_text_of_a_png_header() {
    let header: Vec<u8> = vec![0x89, b'P', b'N', b'G', 0x0D, 0x0A, 0x1A, 0x0A];
    assert_eq!(image_file("iVBORw0KGgo=").unwrap(), header);
}

#[test]
fn base64_text_round_trips() {
    let file: Vec<u8> = (0..=255u8).chain(0..100u8).collect();
    #[allow(deprecated)]
    let text = base64::encode(&file);
    assert_eq!(image_file(&text).unwrap(), file);
}

#[test]
fn text_that_is_not_base64_is_refused() {
    assert!(matches!(image_file("not base64!"), Err(DetectError::Base64(_))));
    assert!(matches!(image_file("AAA"), Err(DetectError::Base64(_))));
    assert!(matches!(image_file("aGVsbG8= "), Err(DetectError::Base64(_))));
    assert!(matches!(image_file("aGVsbG8"), Err(DetectError::Base64(_))));
}

#[test]
fn a_raster_from_its_parts() {
    let raster = Raster::from_parts(2, 3, vec![1, 2, 3, 4, 5, 6]).unwrap();
    assert_eq!(raster.width(), 2);
    assert_eq!(raster.height(), 3);
    assert_eq!(raster.get(0, 0), Some(1));
    assert_eq!(raster.get(1, 0), Some(2));
    assert_eq!(raster.get(0, 1), Some(3));
    assert_eq!(raster.get(1, 2), Some(6));
    assert_eq!(raster.pixels(), &[1u8, 2, 3, 4, 5, 6][..]);
    assert_eq!(raster.into_pixels(), vec![1, 2, 3, 4, 5, 6]);
}

#[test]
fn a_raster_needs_one_byte_for_each_pixel() {
    assert!(matches!(
        Raster::from_parts(2, 3, vec![1, 2, 3, 4, 5]),
        Err(DetectError::RasterLayout { width: 2, height: 3, len: 5 })
    ));
    assert!(matches!(
        Raster::from_parts(2, 3, vec![1, 2, 3, 4, 5, 6, 7]),
        Err(DetectError::RasterLayout { width: 2, height: 3, len: 7 })
    ));
    assert!(matches!(
        Raster::from_parts(0, 3, vec![1]),
        Err(DetectError::RasterLayout { width: 0, height: 3, len: 1 })
    ));
    assert!(matches!(
        Raster::from_parts(u32::MAX, u32::MAX, vec![1]),
        Err(DetectError::RasterLayout { width: u32::MAX, height: u32::MAX, len: 1 })
    ));
}

#[test]
fn a_raster_without_pixels() {
    assert!(Raster::from_parts(0, 0, Vec::new()).is_ok());
    let raster = Raster::from_parts(0, 7, Vec::new()).unwrap();
    assert_eq!((raster.width(), raster.height()), (0, 7));
    assert_eq!(raster.get(0, 0), None);
}

#[test]
fn a_uniform_gray_raster() {
    let raster = Raster::from_parts(200, 100, vec![128; 200 * 100]).unwrap();
    assert_eq!((raster.width(), raster.height()), (200, 100));
    assert_eq!(raster.get(199, 99), Some(128));
    assert!(raster.pixels().iter().all(|p| *p == 128));
}

#[test]
fn a_pixel_outside_the_raster() {
    let raster = Raster::from_parts(2, 3, vec![1, 2, 3, 4, 5, 6]).unwrap();
    assert_eq!(raster.get(2, 0), None);
    assert_eq!(raster.get(0, 3), None);
    assert_eq!(raster.get(u32::MAX, u32::MAX), None);
}
