//! The pictures the renderer uploads: the desktop wallpaper image and the
//! star logo's pixel layout.
use vstd::prelude::*;
use std::io::Cursor;

verus! {

/// A decoded picture: width, height and RGBA bytes, row by row.
pub struct DecodedImage {
    pub width: u32,
    pub height: u32,
    pub rgba: Vec<u8>,
}

/// The picture that the `image` crate decodes from a file's bytes, by the
/// format it guesses from their first bytes, converted to 8-bit RGBA; `None`
/// when the format is unknown or the bytes do not decode.
pub uninterp spec fn decoded_image(bytes: Seq<u8>) -> Option<(u32, u32, Seq<u8>)>;

pub open spec fn image_view(d: DecodedImage) -> (u32, u32, Seq<u8>) {
    (d.width, d.height, d.rgba@)
}

/// `image::ImageReader::new(Cursor::new(bytes)).with_guessed_format()`,
/// then `decode()`, `to_rgba8()`, `dimensions()` and `into_raw()`. The
/// contract names the result as a function of the bytes (the application
/// registers no format hooks); what the decoders make of the bytes is left
/// to the crate. An RGBA buffer of the crate holds four bytes for each of
/// its `width * height` pixels, and the contract says so.
#[verifier::external_body]
fn decode_image(bytes: &[u8]) -> (r: Option<DecodedImage>)
    ensures
        match decoded_image(bytes@) {
            Some(v) => r is Some && image_view(r->0) == v,
            None => r is None,
        },
        r matches Some(d) ==> d.rgba@.len() == 4 * d.width * d.height,
{
    let reader = match image::ImageReader::new(Cursor::new(bytes)).with_guessed_format() {
        Ok(r) => r,
        Err(_) => return None,
    };
    let img = match reader.decode() {
        Ok(i) => i,
        Err(_) => return None,
    };
    let rgba = img.to_rgba8();
    let (width, height) = rgba.dimensions();
    Some(DecodedImage { width, height, rgba: rgba.into_raw() })
}

/// The wallpaper image the renderer shows.
pub struct Wallpaper {
    pub width: u32,
    pub height: u32,
    pub rgba: Vec<u8>,
    /// Whether it is Windows' transcoded copy, already fitted to the screen.
    pub is_transcoded: bool,
}

/// The picture shown when no wallpaper can be read: one opaque black pixel.
pub open spec fn black_pixel() -> (u32, u32, Seq<u8>) {
    (1, 1, seq![0u8, 0u8, 0u8, 255u8])
}

/// The wallpaper shown: the transcoded copy when it decodes, else the
/// wallpaper file when it decodes, else one black pixel.
pub open spec fn wallpaper_choice(
    transcoded: Option<(u32, u32, Seq<u8>)>,
    file: Option<(u32, u32, Seq<u8>)>,
) -> (u32, u32, Seq<u8>, bool) {
    match transcoded {
        Some(t) => (t.0, t.1, t.2, true),
        None => match file {
            Some(f) => (f.0, f.1, f.2, false),
            None => (black_pixel().0, black_pixel().1, black_pixel().2, false),
        },
    }
}

pub open spec fn wallpaper_view(w: Wallpaper) -> (u32, u32, Seq<u8>, bool) {
    (w.width, w.height, w.rgba@, w.is_transcoded)
}

/// The wallpaper shown, from the decoded transcoded copy and the decoded
/// wallpaper file.
pub fn select_wallpaper(transcoded: Option<DecodedImage>, file: Option<DecodedImage>) -> (w: Wallpaper)
    ensures
        wallpaper_view(w) == wallpaper_choice(
            match transcoded {
                Some(t) => Some(image_view(t)),
                None => None,
            },
            match file {
                Some(f) => Some(image_view(f)),
                None => None,
            },
        ),
{
    match transcoded {
        Some(t) => Wallpaper { width: t.width, height: t.height, rgba: t.rgba, is_transcoded: true },
        None => match file {
            Some(f) => Wallpaper { width: f.width, height: f.height, rgba: f.rgba, is_transcoded: false },
            None => {
                let rgba = vec![0u8, 0u8, 0u8, 255u8];
                assert(rgba@ =~= black_pixel().2);
                Wallpaper { width: 1, height: 1, rgba, is_transcoded: false }
            },
        },
    }
}

/// The wallpaper shown, from the bytes of the transcoded copy and of the
/// wallpaper file (`None` for a file that could not be read). The file is
/// decoded only when the transcoded copy does not decode. The picture holds
/// four bytes for each of its pixels.
pub fn load_wallpaper_image(transcoded: Option<Vec<u8>>, file: Option<Vec<u8>>) -> (w: Wallpaper)
    ensures
        w.rgba@.len() == 4 * w.width * w.height,
        wallpaper_view(w) == wallpaper_choice(
            match transcoded {
                Some(b) => decoded_image(b@),
                None => None,
            },
            match file {
                Some(b) => decoded_image(b@),
                None => None,
            },
        ),
{
    let first = match &transcoded {
        Some(b) => decode_image(b.as_slice()),
        None => None,
    };
    if first.is_some() {
        return select_wallpaper(first, None);
    }
    let second = match &file {
        Some(b) => decode_image(b.as_slice()),
        None => None,
    };
    select_wallpaper(None, second)
}

/// The RGBA bytes of a white picture whose pixels have the opacities
/// `alpha`, row by row.
pub open spec fn white_with_alpha(alpha: Seq<u8>) -> Seq<u8> {
    Seq::new(4 * alpha.len(), |i: int| if i % 4 == 3 { alpha[i / 4] } else { 255u8 })
}

/// The RGBA bytes of the star logo from the opacity of each of its pixels:
/// white, with the given alpha.
pub fn assemble_logo_rgba(alpha: &[u8]) -> (rgba: Vec<u8>)
    requires
        4 * alpha@.len() <= usize::MAX,
    ensures
        rgba@ == white_with_alpha(alpha@),
{
    let mut out: Vec<u8> = Vec::new();
    let mut i: usize = 0;
    while i < alpha.len()
        invariant
            i <= alpha@.len(),
            4 * alpha@.len() <= usize::MAX,
            out@ == white_with_alpha(alpha@).subrange(0, 4 * i as int),
        decreases alpha.len() - i,
    {
        out.push(255);
        out.push(255);
        out.push(255);
        out.push(alpha[i]);
        i += 1;
        assert(out@ =~= white_with_alpha(alpha@).subrange(0, 4 * i as int));
    }
    assert(white_with_alpha(alpha@).subrange(0, 4 * alpha@.len() as int) =~= white_with_alpha(
        alpha@,
    ));
    out
}

} // verus!
