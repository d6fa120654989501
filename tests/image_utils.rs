use xcap::image_utils;
use xcap::rgba_image::RgbaImage;
use xcap::utils::image;

#[test]
fn image_utils_bgra() {
    let img = image_utils::bgra_to_rgba_image(2, 1, vec![1, 2, 3, 4, 255, 254, 253, 252]).unwrap();
    assert_eq!(
        img,
        RgbaImage::from_vec(2, 1, vec![3, 2, 1, 4, 253, 254, 255, 252]).unwrap()
    );
}

#[test]
fn image_utils_extra_data() {
    let clean = image_utils::remove_extra_data(
        2,
        9,
        vec![
            1, 2, 3, 4, 5, 6, 7, 8, 9, 11, 12, 13, 14, 15, 16, 17, 18, 19,
        ],
    );
    assert_eq!(
        clean,
        vec![1, 2, 3, 4, 5, 6, 7, 8, 11, 12, 13, 14, 15, 16, 17, 18]
    );
}

#[test]
fn image_bgra() {
    let img = image::bgra_to_rgba_image(2, 1, vec![1, 2, 3, 255, 255, 254, 253, 255]).unwrap();
    assert_eq!(
        img,
        RgbaImage::from_vec(2, 1, vec![3, 2, 1, 255, 253, 254, 255, 255]).unwrap()
    );
}

#[test]
fn image_extra_data() {
    let clean = image::remove_extra_data(
        2,
        2,
        9,
        vec![
            1, 2, 3, 4, 5, 6, 7, 8, 9, 11, 12, 13, 14, 15, 16, 17, 18, 19,
        ],
    );
    assert_eq!(
        clean,
        vec![1, 2, 3, 4, 5, 6, 7, 8, 11, 12, 13, 14, 15, 16, 17, 18]
    );
}

#[test]
fn opaque_bgra_forces_alpha() {
    let img = image::bgra_to_rgba_image(1, 1, vec![10, 20, 30, 0]).unwrap();
    assert_eq!(img.as_raw(), &vec![30, 20, 10, 255]);
}

#[test]
fn vec_to_rgba_image_too_small() {
    let err = image_utils::vec_to_rgba_image(2, 2, vec![0; 15]).unwrap_err();
    assert_eq!(err.message(), "buffer not big enough");
    let err = image::vec_to_rgba_image(1, 1, vec![0; 3]).unwrap_err();
    assert_eq!(err.message(), "buffer not big enough");
}

#[test]
fn vec_to_rgba_image_accepts_exact_and_larger() {
    let img = image_utils::vec_to_rgba_image(2, 1, vec![7; 8]).unwrap();
    assert_eq!((img.width(), img.height()), (2, 1));
    let img = image::vec_to_rgba_image(1, 1, vec![7; 6]).unwrap();
    assert_eq!(img.into_raw().len(), 6);
    assert!(RgbaImage::from_vec(0, 0, vec![]).is_some());
}

#[test]
fn remove_extra_data_drops_partial_row() {
    let clean = image_utils::remove_extra_data(1, 6, vec![1, 2, 3, 4, 0, 0, 5, 6, 7, 8, 0]);
    assert_eq!(clean, vec![1, 2, 3, 4]);
}
