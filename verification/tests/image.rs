use segment::image::{storage_len, Image, CHANNELS};

#[test]
fn image_takes_exactly_its_channels() {
    assert_eq!(CHANNELS, 3);
    assert!(Image::new(2, 2, vec![0; 12]).is_some());
    assert!(Image::new(2, 2, vec![0; 11]).is_none());
    assert!(Image::new(2, 2, vec![0; 13]).is_none());
    assert!(Image::new(2, 2, vec![0; 4]).is_none());
    assert!(Image::new(0, 5, Vec::new()).is_some());
    assert!(Image::new(0, 0, vec![1]).is_none());
}

#[test]
fn image_of_unaddressable_size_is_refused() {
    assert!(Image::new(usize::MAX, 2, vec![0; 6]).is_none());
    assert!(Image::new(usize::MAX / 2, 2, Vec::new()).is_none());
    assert!(Image::zeros(usize::MAX, usize::MAX).is_none());
    assert!(Image::zeros(usize::MAX / 3 + 1, 1).is_none());
    assert_eq!(storage_len(usize::MAX / 3, 1), Some(usize::MAX / 3 * 3));
    assert_eq!(storage_len(usize::MAX / 3 + 1, 1), None);
    assert_eq!(storage_len(4, 5), Some(60));
    assert_eq!(storage_len(0, usize::MAX), Some(0));
}

#[test]
fn zeros_has_the_shape_and_no_set_bit() {
    let image = Image::zeros(3, 4).unwrap();
    assert_eq!(image.rows(), 3);
    assert_eq!(image.cols(), 4);
    assert_eq!(image.pixel_count(), 12);
    assert_eq!(image.data(), &vec![0u8; 36]);
}

#[test]
fn channels_are_stored_pixel_by_pixel() {
    let data: Vec<u8> = (0u8..18).collect();
    let image = Image::new(2, 3, data.clone()).unwrap();
    assert_eq!(image.get(0, 0, 0), Some(0));
    assert_eq!(image.get(0, 0, 2), Some(2));
    assert_eq!(image.get(0, 1, 0), Some(3));
    assert_eq!(image.get(0, 2, 2), Some(8));
    assert_eq!(image.get(1, 0, 0), Some(9));
    assert_eq!(image.get(1, 2, 2), Some(17));
    assert_eq!(image.get(2, 0, 0), None);
    assert_eq!(image.get(0, 3, 0), None);
    assert_eq!(image.get(0, 0, 3), None);
    assert_eq!(image.pixel_count(), 6);
    assert_eq!(image.into_data(), data);
}

#[test]
fn clone_keeps_shape_and_bytes() {
    let image = Image::new(1, 2, vec![1, 2, 3, 4, 5, 6]).unwrap();
    let copy = image.clone();
    assert_eq!(copy.rows(), 1);
    assert_eq!(copy.cols(), 2);
    assert_eq!(copy.data(), image.data());
}
