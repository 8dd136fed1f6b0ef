//! Album art as the image views show it: the stored bytes are decoded to RGBA
//! and handed to the renderer in BGRA channel order.
use image::ImageError;
use vstd::prelude::*;

verus! {

/// What a managed image shows.
#[derive(Clone, Copy)]
pub enum ManagedImageKey {
    Album(i64),
}

/// The error `image` reports when it cannot decode.
#[verifier::external_type_specification]
#[verifier::external_body]
pub struct ExImageError(ImageError);

/// Why album art could not be prepared.
#[derive(Debug)]
pub enum AlbumArtError {
    /// The stored bytes are not an image `image` can decode.
    Decode(ImageError),
}

/// A decoded image: `width` by `height` pixels of four bytes each, row by row,
/// at the start of `pixels`.
pub struct RgbaPixels {
    pub width: u32,
    pub height: u32,
    pub pixels: Vec<u8>,
}

impl RgbaPixels {
    /// The buffer holds every pixel the dimensions call for.
    pub open spec fn wf(&self) -> bool {
        self.pixels@.len() >= 4 * (self.width as int) * (self.height as int)
    }

    /// The number of pixels.
    pub open spec fn pixel_count(&self) -> int {
        self.width as int * self.height as int
    }
}

/// Calls `image::load_from_memory`, converts the image with
/// `DynamicImage::to_rgba8` and takes it apart with `dimensions` and
/// `into_raw`. `load_from_memory` first consults the format-detection and
/// decoding hooks the running program has registered, so what it returns is
/// not a function of the bytes alone and is left unsaid. Claims only that a
/// decoded buffer holds at least four bytes for each pixel (every
/// `ImageBuffer` constructor checks this).
#[verifier::external_body]
fn decode_rgba8(encoded: &[u8]) -> (res: Result<RgbaPixels, ImageError>)
    ensures
        res matches Ok(img) ==> img.wf(),
{
    let image = image::load_from_memory(encoded)?.to_rgba8();
    let (width, height) = image.dimensions();
    Ok(RgbaPixels { width, height, pixels: image.into_raw() })
}

/// `pixels` with the first and third byte of each of its first `count`
/// four-byte pixels exchanged, the rest unchanged.
pub open spec fn channels_swapped(pixels: Seq<u8>, count: int) -> Seq<u8> {
    Seq::new(
        pixels.len(),
        |i: int|
            if i < 4 * count && i % 4 == 0 {
                pixels[i + 2]
            } else if i < 4 * count && i % 4 == 2 {
                pixels[i - 2]
            } else {
                pixels[i]
            },
    )
}

/// Reorders every pixel of `image` from RGBA to BGRA (and back: the exchange
/// is its own inverse).
#[verifier::spinoff_prover]
pub fn rgb_to_bgr(image: &mut RgbaPixels)
    requires
        old(image).wf(),
    ensures
        final(image).width == old(image).width,
        final(image).height == old(image).height,
        final(image).pixels@ == channels_swapped(old(image).pixels@, old(image).pixel_count()),
        final(image).pixels@.len() == old(image).pixels@.len(),
        forall|i: int|
            0 <= i < 4 * old(image).pixel_count() && i % 4 == 0 ==> #[trigger] final(image).pixels@[i]
                == old(image).pixels@[i + 2],
        forall|i: int|
            0 <= i < 4 * old(image).pixel_count() && i % 4 == 2 ==> #[trigger] final(image).pixels@[i]
                == old(image).pixels@[i - 2],
        forall|i: int|
            0 <= i < old(image).pixels@.len() && (i % 4 == 1 || i % 4 == 3 || i >= 4
                * old(image).pixel_count()) ==> #[trigger] final(image).pixels@[i] == old(image).pixels@[i],
{
    let w = image.width as usize;
    let h = image.height as usize;
    let len = image.pixels.len();
    proof {
        assert(w * h <= len / 4) by (nonlinear_arith)
            requires
                4 * (w as int) * (h as int) <= len as int,
        ;
    }
    let count = w * h;
    let ghost before = image.pixels@;
    let mut k: usize = 0;
    while k < count
        invariant
            count == old(image).pixel_count(),
            before == old(image).pixels@,
            4 * count <= before.len(),
            before.len() == len,
            k <= count,
            image.width == old(image).width,
            image.height == old(image).height,
            image.pixels@.len() == before.len(),
            forall|i: int|
                0 <= i < before.len() ==> #[trigger] image.pixels@[i] == (if i < 4 * k {
                    channels_swapped(before, count as int)[i]
                } else {
                    before[i]
                }),
        decreases count - k,
    {
        let base = 4 * k;
        let red = image.pixels[base];
        let blue = image.pixels[base + 2];
        image.pixels.set(base, blue);
        image.pixels.set(base + 2, red);
        proof {
            assert forall|i: int| 0 <= i < before.len() implies #[trigger] image.pixels@[i] == (if i
                < 4 * (k + 1) {
                channels_swapped(before, count as int)[i]
            } else {
                before[i]
            }) by {
                if i == base || i == base + 2 {
                } else if i < 4 * k {
                } else if i < 4 * (k + 1) {
                    assert(i % 4 == 1 || i % 4 == 3);
                }
            }
        }
        k = k + 1;
    }
    proof {
        assert(image.pixels@ =~= channels_swapped(before, count as int));
    }
}

/// Turns the outcome of decoding stored album art into what the image view
/// shows: a decoded image in BGRA order, or the decoding error.
pub fn album_art_from_decoded(decoded: Result<RgbaPixels, ImageError>) -> (res: Result<Option<RgbaPixels>, AlbumArtError>)
    requires
        decoded matches Ok(img) ==> img.wf(),
    ensures
        match decoded {
            Ok(img) => res matches Ok(Some(out)) && {
                &&& out.width == img.width
                &&& out.height == img.height
                &&& out.pixels@ == channels_swapped(img.pixels@, img.pixel_count())
                &&& out.wf()
                &&& out.pixels@.len() == img.pixels@.len()
                &&& forall|i: int|
                    0 <= i < 4 * img.pixel_count() && i % 4 == 0 ==> #[trigger] out.pixels@[i]
                        == img.pixels@[i + 2]
                &&& forall|i: int|
                    0 <= i < 4 * img.pixel_count() && i % 4 == 2 ==> #[trigger] out.pixels@[i]
                        == img.pixels@[i - 2]
                &&& forall|i: int|
                    0 <= i < img.pixels@.len() && (i % 4 == 1 || i % 4 == 3 || i >= 4
                        * img.pixel_count()) ==> #[trigger] out.pixels@[i] == img.pixels@[i]
            },
            Err(e) => res == Err::<Option<RgbaPixels>, AlbumArtError>(AlbumArtError::Decode(e)),
        },
{
    match decoded {
        Ok(mut image) => {
            rgb_to_bgr(&mut image);
            Ok(Some(image))
        },
        Err(e) => Err(AlbumArtError::Decode(e)),
    }
}

/// Prepares album art for display from the bytes stored for an album, if any:
/// nothing when no bytes are stored or they are empty; otherwise the bytes are
/// handed to `image` and the outcome goes through [`album_art_from_decoded`],
/// giving a decoding error or a complete image.
pub fn album_art_from_encoded(encoded: Option<Vec<u8>>) -> (res: Result<Option<RgbaPixels>, AlbumArtError>)
    ensures
        match encoded {
            None => res matches Ok(None),
            Some(bytes) => if bytes@.len() == 0 {
                res matches Ok(None)
            } else {
                res matches Err(AlbumArtError::Decode(_)) || (res matches Ok(Some(img)) && img.wf())
            },
        },
{
    let bytes = match encoded {
        Some(bytes) => bytes,
        None => {
            return Ok(None);
        },
    };
    if bytes.len() == 0 {
        return Ok(None);
    }
    album_art_from_decoded(decode_rgba8(bytes.as_slice()))
}

/// What the image view does with the outcome of a retrieval.
pub enum ImageViewAction {
    /// Show the image and redraw.
    Show(RgbaPixels),
    /// Report the failure and keep showing nothing.
    Report(AlbumArtError),
    /// Nothing is stored: keep showing nothing.
    Keep,
}

/// The image view's reaction to a retrieval: a retrieved image is shown, a
/// failure is reported, and when there is no art nothing changes.
pub fn image_view_action(retrieved: Result<Option<RgbaPixels>, AlbumArtError>) -> (action: ImageViewAction)
    ensures
        match retrieved {
            Ok(Some(img)) => action == ImageViewAction::Show(img),
            Ok(None) => action is Keep,
            Err(e) => action == ImageViewAction::Report(e),
        },
{
    match retrieved {
        Ok(Some(image)) => ImageViewAction::Show(image),
        Ok(None) => ImageViewAction::Keep,
        Err(e) => ImageViewAction::Report(e),
    }
}

/// Exchanging the first and third byte of each pixel twice restores the image.
pub proof fn lemma_channel_swap_involution(pixels: Seq<u8>, count: int)
    requires
        0 <= count,
        4 * count <= pixels.len(),
    ensures
        channels_swapped(channels_swapped(pixels, count), count) == pixels,
{
    assert(channels_swapped(channels_swapped(pixels, count), count) =~= pixels);
}

/// The exchange moves bytes only within a pixel: the second and fourth byte of
/// each pixel, and every byte past the swapped pixels, stay where they are.
pub proof fn lemma_channel_swap_keeps_green_and_alpha(pixels: Seq<u8>, count: int, i: int)
    requires
        0 <= count,
        4 * count <= pixels.len(),
        0 <= i < pixels.len(),
        i % 4 == 1 || i % 4 == 3 || i >= 4 * count,
    ensures
        channels_swapped(pixels, count)[i] == pixels[i],
{
}

/// Every pixel of the image is reordered, not only some of them: for each of
/// the `count` pixels the first and third bytes trade places and the second and
/// fourth stay, and the bytes past the last pixel are untouched.
pub proof fn lemma_every_pixel_swapped(pixels: Seq<u8>, count: int)
    requires
        0 <= count,
        4 * count <= pixels.len(),
    ensures
        channels_swapped(pixels, count).len() == pixels.len(),
        forall|p: int|
            0 <= p < count ==> {
                &&& #[trigger] channels_swapped(pixels, count)[4 * p] == pixels[4 * p + 2]
                &&& channels_swapped(pixels, count)[4 * p + 2] == pixels[4 * p]
                &&& channels_swapped(pixels, count)[4 * p + 1] == pixels[4 * p + 1]
                &&& channels_swapped(pixels, count)[4 * p + 3] == pixels[4 * p + 3]
            },
        forall|i: int| 4 * count <= i < pixels.len() ==> #[trigger] channels_swapped(pixels, count)[i] == pixels[i],
{
    assert forall|p: int| 0 <= p < count implies {
        &&& #[trigger] channels_swapped(pixels, count)[4 * p] == pixels[4 * p + 2]
        &&& channels_swapped(pixels, count)[4 * p + 2] == pixels[4 * p]
        &&& channels_swapped(pixels, count)[4 * p + 1] == pixels[4 * p + 1]
        &&& channels_swapped(pixels, count)[4 * p + 3] == pixels[4 * p + 3]
    } by {
        assert((4 * p) % 4 == 0 && (4 * p + 2) % 4 == 2 && (4 * p + 1) % 4 == 1 && (4 * p + 3) % 4 == 3);
    }
}

} // verus!
