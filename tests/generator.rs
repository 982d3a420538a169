use image::{DynamicImage, GenericImageView, Rgb, RgbImage};
use panothumb::generator::{
    after_decode, after_remove, after_writes, crop_region, derive_images, is_panoramic, Next,
    Outcome,
};
use panothumb::naming::Variant;
use panothumb::Picture;

fn gradient(w: u32, h: u32) -> Picture {
    let img = RgbImage::from_fn(w, h, |x, y| Rgb([(x * 7 % 256) as u8, (y * 13 % 256) as u8, ((x + y) % 256) as u8]));
    Picture::from_image(DynamicImage::ImageRgb8(img))
}

#[test]
fn panoramic_shapes() {
    assert!(is_panoramic(2048, 1024));
    assert!(is_panoramic(200, 100));
    assert!(is_panoramic(0, 0));
    assert!(!is_panoramic(100, 100));
    assert!(!is_panoramic(201, 100));
    assert!(!is_panoramic(100, 200));
    assert!(is_panoramic(4294967294, 2147483647));
    assert!(!is_panoramic(0, 2147483648));
}

#[test]
fn undecodable_file_is_not_an_image() {
    assert_eq!(after_decode(None), Next::Finish(Outcome::NotAnImage));
}

#[test]
fn wrong_ratio_is_rejected() {
    assert_eq!(after_decode(Some((300, 100))), Next::Finish(Outcome::RejectedAspectRatio));
    assert_eq!(after_decode(Some((1920, 1080))), Next::Finish(Outcome::RejectedAspectRatio));
}

#[test]
fn two_to_one_goes_on_to_removal() {
    assert_eq!(after_decode(Some((200, 100))), Next::RemoveOriginal);
}

#[test]
fn removal_result_decides_writing() {
    assert_eq!(after_remove(true), Next::WriteOutputs);
    assert_eq!(after_remove(false), Next::Finish(Outcome::DeleteFailed));
}

#[test]
fn failed_saves_do_not_change_outcome() {
    assert_eq!(after_writes(&vec![true, true, true, true]), Outcome::Succeeded);
    assert_eq!(after_writes(&vec![false, true, false, false]), Outcome::Succeeded);
}

#[test]
fn crop_regions_are_the_halves() {
    assert_eq!(crop_region(Variant::Left), (0, 0, 1024, 1024));
    assert_eq!(crop_region(Variant::Right), (1024, 0, 1024, 1024));
}

#[test]
fn picture_reads_size() {
    let p = gradient(30, 15);
    assert_eq!((p.width(), p.height()), (30, 15));
    assert_eq!(p.image().dimensions(), (30, 15));
}

#[test]
fn derived_images_have_fixed_sizes() {
    let d = derive_images(&gradient(64, 32));
    let expected = [
        (Variant::Resized, 2048, 1024),
        (Variant::Left, 1024, 1024),
        (Variant::Right, 1024, 1024),
        (Variant::Small, 1024, 512),
    ];
    assert_eq!(d.len(), 4);
    for (item, (v, w, h)) in d.iter().zip(expected.iter()) {
        assert_eq!(item.variant, *v);
        assert_eq!((item.picture.width(), item.picture.height()), (*w, *h));
        assert_eq!(item.picture.image().dimensions(), (*w, *h));
    }
}

#[test]
fn sizes_hold_for_other_source_shapes() {
    let d = derive_images(&gradient(10, 40));
    assert_eq!((d[0].picture.width(), d[0].picture.height()), (2048, 1024));
    assert_eq!((d[3].picture.width(), d[3].picture.height()), (1024, 512));
}

#[test]
fn squares_are_halves_of_resized() {
    let d = derive_images(&gradient(64, 32));
    let resized = d[0].picture.image().to_rgb8();
    let left = d[1].picture.image().to_rgb8();
    let right = d[2].picture.image().to_rgb8();
    for y in (0..1024).step_by(5) {
        for x in (0..1024).step_by(3) {
            assert_eq!(left.get_pixel(x, y), resized.get_pixel(x, y));
            assert_eq!(right.get_pixel(x, y), resized.get_pixel(x + 1024, y));
        }
    }
    assert_eq!(left.get_pixel(1023, 1023), resized.get_pixel(1023, 1023));
    assert_eq!(right.get_pixel(1023, 1023), resized.get_pixel(2047, 1023));
}

#[test]
fn valid_image_runs_to_success() {
    let p = gradient(64, 32);
    let first = after_decode(Some((p.width(), p.height())));
    assert_eq!(first, Next::RemoveOriginal);
    assert_eq!(after_remove(true), Next::WriteOutputs);
    let d = derive_images(&p);
    assert_eq!(d.len(), 4);
    assert_eq!(after_writes(&vec![true; 4]), Outcome::Succeeded);
}

#[test]
fn resized_output_is_processed_again() {
    let d = derive_images(&gradient(64, 32));
    let resized = &d[0].picture;
    assert_eq!(after_decode(Some((resized.width(), resized.height()))), Next::RemoveOriginal);
}

#[test]
fn empty_source_still_gives_fixed_sizes() {
    let d = derive_images(&gradient(0, 0));
    assert_eq!((d[0].picture.width(), d[0].picture.height()), (2048, 1024));
    assert_eq!((d[1].picture.width(), d[1].picture.height()), (1024, 1024));
}

#[test]
fn into_image_gives_raster_back() {
    let img = gradient(8, 4).into_image();
    assert_eq!(img.dimensions(), (8, 4));
}
