use std::io::Cursor;

use hummingbird::ui::components::managed_image::{
    album_art_from_decoded, album_art_from_encoded, image_view_action, rgb_to_bgr, AlbumArtError,
    ImageViewAction, RgbaPixels,
};
use hummingbird::ui::library::track_listing::{
    disc_group_starts, max_track_number, max_track_number_label, TrackNumbering,
};

fn png_bytes(width: u32, height: u32, pixels: Vec<u8>) -> Vec<u8> {
    let image = image::RgbaImage::from_raw(width, height, pixels).unwrap();
    let mut out = Cursor::new(Vec::new());
    image.write_to(&mut out, image::ImageFormat::Png).unwrap();
    out.into_inner()
}

#[test]
fn no_art_when_nothing_is_stored() {
    assert!(matches!(album_art_from_encoded(None), Ok(None)));
    assert!(matches!(album_art_from_encoded(Some(Vec::new())), Ok(None)));
}

#[test]
fn undecodable_art_is_a_decode_error() {
    assert!(matches!(album_art_from_encoded(Some(vec![1, 2, 3, 4])), Err(AlbumArtError::Decode(_))));
}

#[test]
fn decoded_art_is_in_bgra_order() {
    let encoded = png_bytes(2, 1, vec![10, 20, 30, 255, 40, 50, 60, 128]);
    let art = album_art_from_encoded(Some(encoded)).unwrap().unwrap();
    assert_eq!(art.width, 2);
    assert_eq!(art.height, 1);
    assert_eq!(art.pixels, vec![30, 20, 10, 255, 60, 50, 40, 128]);
}

#[test]
fn swapping_channels_twice_restores_the_image() {
    let before = vec![1, 2, 3, 4, 5, 6, 7, 8, 9];
    let mut image = RgbaPixels { width: 2, height: 1, pixels: before.clone() };
    rgb_to_bgr(&mut image);
    assert_eq!(image.pixels, vec![3, 2, 1, 4, 7, 6, 5, 8, 9]);
    rgb_to_bgr(&mut image);
    assert_eq!(image.pixels, before);
}

#[test]
fn decoded_images_are_reordered_and_errors_kept() {
    let decoded = RgbaPixels { width: 1, height: 1, pixels: vec![1, 2, 3, 4] };
    let art = album_art_from_decoded(Ok(decoded)).unwrap().unwrap();
    assert_eq!((art.width, art.height), (1, 1));
    assert_eq!(art.pixels, vec![3, 2, 1, 4]);

    let failure = image::load_from_memory(&[0, 1, 2]).unwrap_err();
    assert!(matches!(album_art_from_decoded(Err(failure)), Err(AlbumArtError::Decode(_))));
}

#[test]
fn image_view_shows_reports_or_keeps() {
    let shown = image_view_action(Ok(Some(RgbaPixels { width: 1, height: 1, pixels: vec![9, 8, 7, 6] })));
    assert!(matches!(shown, ImageViewAction::Show(ref img) if img.pixels == vec![9, 8, 7, 6]));
    assert!(matches!(image_view_action(Ok(None)), ImageViewAction::Keep));
    let failure = image::load_from_memory(&[0, 1, 2]).unwrap_err();
    assert!(matches!(image_view_action(Err(AlbumArtError::Decode(failure))), ImageViewAction::Report(_)));
}

fn t(track: Option<i32>, disc: Option<i32>) -> TrackNumbering {
    TrackNumbering { track_number: track, disc_number: disc }
}

#[test]
fn disc_groups_start_at_first_track_number_one_and_disc_change() {
    let tracks = vec![
        t(Some(1), Some(1)),
        t(Some(2), Some(1)),
        t(Some(3), Some(2)),
        t(Some(1), Some(2)),
        t(Some(2), Some(2)),
        t(None, None),
    ];
    assert_eq!(disc_group_starts(&tracks), vec![true, false, true, true, false, true]);
    assert_eq!(disc_group_starts(&vec![t(Some(5), None)]), vec![true]);
    assert!(disc_group_starts(&Vec::new()).is_empty());
}

#[test]
fn max_track_number_ignores_unnumbered_tracks() {
    let tracks = vec![t(Some(3), None), t(None, None), t(Some(12), Some(1)), t(Some(-4), None)];
    assert_eq!(max_track_number(&tracks), Some(12));
    assert_eq!(max_track_number_label(&tracks), Some("12".to_string()));
    assert_eq!(max_track_number(&vec![t(None, Some(1))]), None);
    assert_eq!(max_track_number_label(&Vec::new()), None);
    assert_eq!(max_track_number_label(&vec![t(Some(-7), None)]), Some("-7".to_string()));
}
