//! Pictures: the thumbnail embedded in a photograph's EXIF data.

use vstd::prelude::*;
use exif::{Exif, In, Tag};
use image::DynamicImage;

verus! {

#[verifier::external_type_specification]
#[verifier::external_body]
pub struct ExExif(Exif);

#[verifier::external_type_specification]
#[verifier::external_body]
pub struct ExDynamicImage(DynamicImage);

/// The fields of the thumbnail directory (`In::THUMBNAIL`) of `exif` whose
/// value is an unsigned integer (BYTE, SHORT or LONG): tag number to the
/// first integer of the value.
pub uninterp spec fn thumbnail_uint_fields(exif: Exif) -> Map<u16, u32>;

/// The TIFF data `exif` was read from (`Exif::buf`).
pub uninterp spec fn tiff_data(exif: Exif) -> Seq<u8>;

/// What `image::load_from_memory` decodes these bytes into: the picture's
/// width and height and its pixels (column and row to the bytes of that
/// pixel), or `None` when the bytes do not decode.
pub uninterp spec fn decoded(bytes: Seq<u8>) -> Option<((u32, u32), Map<(u32, u32), Seq<u8>>)>;

/// The fields of the thumbnail directory the tool reads.
#[derive(Clone, Copy, Debug, PartialEq, Eq, Structural)]
pub enum ThumbnailField {
    /// `JPEGInterchangeFormat`: where the thumbnail starts in the TIFF data.
    Offset,
    /// `JPEGInterchangeFormatLength`: how many bytes it takes.
    Length,
}

/// The tag number of a thumbnail field.
pub open spec fn tag_number(f: ThumbnailField) -> u16 {
    match f {
        ThumbnailField::Offset => 0x201,
        ThumbnailField::Length => 0x202,
    }
}

/// The first integer of a thumbnail field, when the field is present and
/// holds unsigned integers.
pub open spec fn thumbnail_uint(exif: Exif, f: ThumbnailField) -> Option<u32> {
    let m = thumbnail_uint_fields(exif);
    if m.dom().contains(tag_number(f)) {
        Some(m[tag_number(f)])
    } else {
        None
    }
}

/// `Exif::get_field(tag, In::THUMBNAIL)` then `Value::get_uint(0)`: the
/// first unsigned integer of the field's value. The contract claims the
/// result is what `thumbnail_uint_fields` holds for the tag.
#[verifier::external_body]
fn read_thumbnail_uint(exif: &Exif, f: ThumbnailField) -> (r: Option<u32>)
    ensures
        r == (if thumbnail_uint_fields(*exif).dom().contains(tag_number(f)) {
            Some(thumbnail_uint_fields(*exif)[tag_number(f)])
        } else {
            None
        }),
{
    let tag = match f {
        ThumbnailField::Offset => Tag::JPEGInterchangeFormat,
        ThumbnailField::Length => Tag::JPEGInterchangeFormatLength,
    };
    exif.get_field(tag, In::THUMBNAIL).and_then(|field| field.value.get_uint(0))
}

/// `Exif::buf`, copied: the TIFF data the fields were read from.
#[verifier::external_body]
fn read_tiff_data(exif: &Exif) -> (r: Vec<u8>)
    ensures
        r@ == tiff_data(*exif),
{
    exif.buf().to_vec()
}

/// `image::load_from_memory`: guesses the format of the bytes and decodes
/// them. The contract claims that a picture comes back exactly when
/// `decoded` gives one for the bytes, and that its size and pixels are the
/// ones `decoded` gives.
#[verifier::external_body]
fn decode_image(bytes: &[u8]) -> (r: Option<DynamicImage>)
    ensures
        r is Some <==> decoded(bytes@) is Some,
        r is Some ==> decoded(bytes@) == Some((image_size(r->0), image_pixels(r->0))),
{
    image::load_from_memory(bytes).ok()
}

/// The bytes of the embedded thumbnail: `length` bytes from `offset` in the
/// TIFF data, when both fields are present and the range lies inside the
/// data.
pub open spec fn thumbnail_range(exif: Exif) -> Option<Seq<u8>> {
    match (thumbnail_uint(exif, ThumbnailField::Offset), thumbnail_uint(exif, ThumbnailField::Length)) {
        (Some(o), Some(l)) => if o + l <= tiff_data(exif).len() {
            Some(tiff_data(exif).subrange(o as int, o + l))
        } else {
            None
        },
        _ => None,
    }
}

/// The bytes of the thumbnail embedded in `exif`, as `thumbnail_range`
/// states them.
pub fn thumbnail_bytes(exif: &Exif) -> (r: Option<Vec<u8>>)
    ensures
        match thumbnail_range(*exif) {
            Some(b) => r is Some && r->0@ == b,
            None => r is None,
        },
{
    let offset = match read_thumbnail_uint(exif, ThumbnailField::Offset) {
        Some(o) => o,
        None => {
            return None;
        },
    };
    let length = match read_thumbnail_uint(exif, ThumbnailField::Length) {
        Some(l) => l,
        None => {
            return None;
        },
    };
    let buf = read_tiff_data(exif);
    let end: u64 = (offset as u64) + (length as u64);
    if end > buf.len() as u64 {
        return None;
    }
    let start = offset as usize;
    let stop = end as usize;
    let mut out: Vec<u8> = Vec::new();
    let mut i = start;
    while i < stop
        invariant
            start <= i <= stop <= buf@.len(),
            out@ == buf@.subrange(start as int, i as int),
        decreases stop - i,
    {
        out.push(buf[i]);
        assert(out@ =~= buf@.subrange(start as int, i + 1));
        i = i + 1;
    }
    Some(out)
}

/// The thumbnail embedded in `exif`, decoded: present exactly when the
/// thumbnail bytes are present and decode, and then the picture those bytes
/// decode into.
pub fn exif_thumbnail(exif: &Exif) -> (r: Option<DynamicImage>)
    ensures
        match thumbnail_range(*exif) {
            Some(b) => match decoded(b) {
                Some(p) => r is Some && image_size(r->0) == p.0 && image_pixels(r->0) == p.1,
                None => r is None,
            },
            None => r is None,
        },
{
    match thumbnail_bytes(exif) {
        Some(bytes) => decode_image(bytes.as_slice()),
        None => None,
    }
}


/// The pixels of `img`: column and row to the bytes of that pixel.
pub uninterp spec fn image_pixels(img: DynamicImage) -> Map<(u32, u32), Seq<u8>>;

/// The width and height of `img`.
pub uninterp spec fn image_size(img: DynamicImage) -> (u32, u32);

/// The colour type of `img` (`DynamicImage::color`), as its bits per pixel
/// and its number of channels, which tell the colour types apart.
pub uninterp spec fn image_color(img: DynamicImage) -> (u16, u8);

/// Whether `out` is `img` turned a quarter turn clockwise: its width is the
/// height of `img` and the other way round, and the pixel at column `x`,
/// row `y` of `out` is the pixel at column `y`, row `h - 1 - x` of `img`.
pub open spec fn is_quarter_turn(img: DynamicImage, out: DynamicImage) -> bool {
    let (w, h) = image_size(img);
    &&& image_size(out) == (h, w)
    &&& image_color(out) == image_color(img)
    &&& forall|x: u32, y: u32|
        x < h && y < w ==> #[trigger] image_pixels(out)[(x, y)] == image_pixels(img)[(
            y,
            (h - 1 - x) as u32,
        )]
}

/// Whether `out` is `img` turned half a turn.
pub open spec fn is_half_turn(img: DynamicImage, out: DynamicImage) -> bool {
    let (w, h) = image_size(img);
    &&& image_size(out) == (w, h)
    &&& image_color(out) == image_color(img)
    &&& forall|x: u32, y: u32|
        x < w && y < h ==> #[trigger] image_pixels(out)[(x, y)] == image_pixels(img)[(
            (w - 1 - x) as u32,
            (h - 1 - y) as u32,
        )]
}

/// Whether `out` is `img` turned three quarters clockwise (a quarter turn
/// counter-clockwise).
pub open spec fn is_three_quarter_turn(img: DynamicImage, out: DynamicImage) -> bool {
    let (w, h) = image_size(img);
    &&& image_size(out) == (h, w)
    &&& image_color(out) == image_color(img)
    &&& forall|x: u32, y: u32|
        x < h && y < w ==> #[trigger] image_pixels(out)[(x, y)] == image_pixels(img)[(
            (w - 1 - y) as u32,
            x,
        )]
}

/// Whether `out` holds the same pixels as `img`, in the same colour type.
pub open spec fn same_picture(img: DynamicImage, out: DynamicImage) -> bool {
    &&& image_size(out) == image_size(img)
    &&& image_color(out) == image_color(img)
    &&& forall|x: u32, y: u32|
        x < image_size(img).0 && y < image_size(img).1 ==> #[trigger] image_pixels(out)[(x, y)]
            == image_pixels(img)[(x, y)]
}

/// `DynamicImage::rotate90`: a new image turned 90 degrees clockwise. The
/// contract claims that the colour type is kept, and the size and pixel
/// placement that `imageops::rotate90`
/// writes: the pixel at column `x`, row `y` of the source lands at column
/// `h - 1 - y`, row `x`.
#[verifier::external_body]
fn turn_quarter(img: &DynamicImage) -> (out: DynamicImage)
    ensures
        image_size(out) == (image_size(*img).1, image_size(*img).0),
        image_color(out) == image_color(*img),
        forall|x: u32, y: u32|
            x < image_size(*img).1 && y < image_size(*img).0 ==> #[trigger] image_pixels(out)[(
                x,
                y,
            )] == image_pixels(*img)[(y, (image_size(*img).1 - 1 - x) as u32)],
{
    img.rotate90()
}

/// `DynamicImage::rotate180`: a new image turned half a turn. The contract
/// claims that the colour type is kept, and the size and pixel placement that `imageops::rotate180` writes.
#[verifier::external_body]
fn turn_half(img: &DynamicImage) -> (out: DynamicImage)
    ensures
        image_size(out) == image_size(*img),
        image_color(out) == image_color(*img),
        forall|x: u32, y: u32|
            x < image_size(*img).0 && y < image_size(*img).1 ==> #[trigger] image_pixels(out)[(
                x,
                y,
            )] == image_pixels(*img)[(
                (image_size(*img).0 - 1 - x) as u32,
                (image_size(*img).1 - 1 - y) as u32,
            )],
{
    img.rotate180()
}

/// `DynamicImage::rotate270`: a new image turned 90 degrees
/// counter-clockwise. The contract claims that the colour type is kept, and
/// the size and pixel placement that
/// `imageops::rotate270` writes: the pixel at column `x`, row `y` of the
/// source lands at column `y`, row `w - 1 - x`.
#[verifier::external_body]
fn turn_three_quarters(img: &DynamicImage) -> (out: DynamicImage)
    ensures
        image_size(out) == (image_size(*img).1, image_size(*img).0),
        image_color(out) == image_color(*img),
        forall|x: u32, y: u32|
            x < image_size(*img).1 && y < image_size(*img).0 ==> #[trigger] image_pixels(out)[(
                x,
                y,
            )] == image_pixels(*img)[((image_size(*img).0 - 1 - y) as u32, x)],
{
    img.rotate270()
}

/// `DynamicImage::clone`: a copy with the same size, colour type and pixels.
#[verifier::external_body]
fn copy_image(img: &DynamicImage) -> (out: DynamicImage)
    ensures
        image_size(out) == image_size(*img),
        image_color(out) == image_color(*img),
        forall|x: u32, y: u32|
            x < image_size(*img).0 && y < image_size(*img).1 ==> #[trigger] image_pixels(out)[(
                x,
                y,
            )] == image_pixels(*img)[(x, y)],
{
    img.clone()
}

/// Whether `out` is `img` turned by `angle` degrees clockwise: 90, 180 and
/// 270 turn it, any other angle leaves it as it is.
pub open spec fn turned_by(img: DynamicImage, out: DynamicImage, angle: u32) -> bool {
    &&& angle == 90 ==> is_quarter_turn(img, out)
    &&& angle == 180 ==> is_half_turn(img, out)
    &&& angle == 270 ==> is_three_quarter_turn(img, out)
    &&& angle != 90 && angle != 180 && angle != 270 ==> same_picture(img, out)
}

/// The picture turned by `angle` degrees clockwise, as `turned_by` states
/// it.
pub fn rotated(img: &DynamicImage, angle: u32) -> (out: DynamicImage)
    ensures
        turned_by(*img, out, angle),
{
    if angle == 90 {
        turn_quarter(img)
    } else if angle == 180 {
        turn_half(img)
    } else if angle == 270 {
        turn_three_quarters(img)
    } else {
        copy_image(img)
    }
}

} // verus!
