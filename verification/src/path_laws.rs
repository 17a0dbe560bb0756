//! What the kind of a file depends on (the extension of a name, and the
//! extensions that make a picture or a workbook), where a picture's pixels
//! go when it is turned, and which bytes are its embedded thumbnail.

use vstd::prelude::*;
use crate::path::{joined, extension, file_name, is_image_path, is_separator, is_xlsx_path, last_index_of, last_segment};
use crate::text::ascii_lower;
use crate::image_ops::{
    image_color, image_pixels, image_size, thumbnail_range, thumbnail_uint, thumbnail_uint_fields, tiff_data,
    turned_by, ThumbnailField,
};
use exif::Exif;
use image::DynamicImage;

verus! {

proof fn lemma_last_segment_whole(p: Seq<char>, sep: char)
    requires
        forall|i: int| 0 <= i < p.len() ==> !is_separator(#[trigger] p[i], sep),
    ensures
        last_segment(p, sep) == p,
    decreases p.len(),
{
    if p.len() > 0 {
        let q = p.drop_last();
        assert forall|i: int| 0 <= i < q.len() implies !is_separator(#[trigger] q[i], sep) by {
            assert(q[i] == p[i]);
        }
        lemma_last_segment_whole(q, sep);
        assert(q.push(p.last()) =~= p);
    }
}

proof fn lemma_last_dot_before(x: Seq<char>, e: Seq<char>)
    requires
        forall|i: int| 0 <= i < e.len() ==> #[trigger] e[i] != '.',
    ensures
        last_index_of(x.push('.') + e, '.') == x.len(),
    decreases e.len(),
{
    let p = x.push('.') + e;
    if e.len() > 0 {
        let e1 = e.drop_last();
        assert forall|i: int| 0 <= i < e1.len() implies #[trigger] e1[i] != '.' by {
            assert(e1[i] == e[i]);
        }
        assert(p.drop_last() =~= x.push('.') + e1);
        assert(p.last() == e[e.len() - 1]);
        lemma_last_dot_before(x, e1);
    } else {
        assert(p =~= x.push('.'));
    }
}

/// A name made of a non-empty stem, a dot and a non-empty extension, with
/// no separator anywhere and no dot in the extension, has that extension;
/// it names a picture exactly when the extension is `jpg`, `jpeg`, `png`,
/// `bmp`, `gif`, `webp`, `tif` or `tiff` in any ASCII case, and a workbook
/// exactly when it is `xlsx` in any ASCII case.
pub proof fn law_kind_by_extension(stem: Seq<char>, ext: Seq<char>, sep: char)
    requires
        stem.len() > 0,
        ext.len() > 0,
        sep != '.',
        forall|i: int| 0 <= i < stem.len() ==> !is_separator(#[trigger] stem[i], sep),
        forall|i: int| 0 <= i < ext.len() ==> !is_separator(#[trigger] ext[i], sep) && ext[i] != '.',
    ensures
        extension(stem.push('.') + ext, sep) == Some(ext),
        is_image_path(stem.push('.') + ext, sep) <==> {
            let e = ascii_lower(ext);
            ||| e == seq!['j', 'p', 'g']
            ||| e == seq!['j', 'p', 'e', 'g']
            ||| e == seq!['p', 'n', 'g']
            ||| e == seq!['b', 'm', 'p']
            ||| e == seq!['g', 'i', 'f']
            ||| e == seq!['w', 'e', 'b', 'p']
            ||| e == seq!['t', 'i', 'f']
            ||| e == seq!['t', 'i', 'f', 'f']
        },
        is_xlsx_path(stem.push('.') + ext, sep) <==> ascii_lower(ext) == seq!['x', 'l', 's', 'x'],
{
    let p = stem.push('.') + ext;
    assert forall|i: int| 0 <= i < p.len() implies !is_separator(#[trigger] p[i], sep) by {
        if i < stem.len() {
            assert(p[i] == stem[i]);
        } else if i == stem.len() {
            assert(p[i] == '.');
        } else {
            assert(p[i] == ext[i - stem.len() - 1]);
        }
    }
    lemma_last_segment_whole(p, sep);
    assert(p.last() == ext[ext.len() - 1]);
    assert(!is_separator(p.last(), sep));
    assert(p.len() >= 3);
    assert(last_segment(p, sep) != seq!['.']);
    assert(last_segment(p, sep) != seq!['.', '.']);
    assert(file_name(p, sep) == Some(p));
    lemma_last_dot_before(stem, ext);
    assert(p.subrange(stem.len() + 1int, p.len() as int) =~= ext);
}

/// A picture turned for an angle of 90 degrees has its width and height
/// swapped and shows, at column `x`, row `y`, the pixel of column `y`, row
/// `h - 1 - x` of the picture (it turns clockwise); for 270 degrees the
/// pixel of column `w - 1 - y`, row `x`; for 180 degrees the pixel of column
/// `w - 1 - x`, row `h - 1 - y`; for 0 degrees the same pixel. The colour
/// type is kept.
pub proof fn law_turned_pixels(img: DynamicImage, out: DynamicImage, angle: u32, x: u32, y: u32)
    requires
        turned_by(img, out, angle),
    ensures
        ({
            let (w, h) = image_size(img);
            &&& image_color(out) == image_color(img)
            &&& angle == 90 ==> image_size(out) == (h, w) && (x < h && y < w ==> image_pixels(out)[(x, y)]
                == image_pixels(img)[(y, (h - 1 - x) as u32)])
            &&& angle == 270 ==> image_size(out) == (h, w) && (x < h && y < w ==> image_pixels(out)[(x, y)]
                == image_pixels(img)[((w - 1 - y) as u32, x)])
            &&& angle == 180 ==> image_size(out) == (w, h) && (x < w && y < h ==> image_pixels(out)[(x, y)]
                == image_pixels(img)[((w - 1 - x) as u32, (h - 1 - y) as u32)])
            &&& angle == 0 ==> image_size(out) == (w, h) && (x < w && y < h ==> image_pixels(out)[(x, y)]
                == image_pixels(img)[(x, y)])
        }),
{
}

/// The thumbnail's bytes are the `length` bytes of the TIFF data that start
/// at `offset`, as the two thumbnail fields give them, when both fields are
/// present and the range lies inside the data; otherwise there is none.
pub proof fn law_thumbnail_range(exif: Exif)
    ensures
        ({
            let fields = thumbnail_uint_fields(exif);
            let data = tiff_data(exif);
            match (thumbnail_uint(exif, ThumbnailField::Offset), thumbnail_uint(exif, ThumbnailField::Length)) {
                (Some(o), Some(l)) => {
                    &&& fields.dom().contains(0x201) && fields[0x201] == o
                    &&& fields.dom().contains(0x202) && fields[0x202] == l
                    &&& o + l <= data.len() ==> (thumbnail_range(exif) matches Some(b) && b.len() == l
                        && forall|i: int| 0 <= i < l ==> #[trigger] b[i] == data[o + i])
                    &&& o + l > data.len() ==> thumbnail_range(exif) is None
                },
                _ => thumbnail_range(exif) is None && !(fields.dom().contains(0x201) && fields.dom().contains(
                    0x202,
                )),
            }
        }),
{
}

/// Joining a folder and a name: a name that starts with a separator stands
/// alone; otherwise the path is the folder's characters, then the main
/// separator unless the folder is empty or already ends with a separator,
/// then the name's characters.
pub proof fn law_join(dir: Seq<char>, name: Seq<char>, sep: char)
    ensures
        name.len() > 0 && is_separator(name[0], sep) ==> joined(dir, name, sep) == name,
        !(name.len() > 0 && is_separator(name[0], sep)) && dir.len() > 0 && !is_separator(dir.last(), sep) ==> {
            let p = joined(dir, name, sep);
            &&& p.len() == dir.len() + 1 + name.len()
            &&& p.subrange(0, dir.len() as int) == dir
            &&& p[dir.len() as int] == sep
            &&& p.subrange(dir.len() + 1int, p.len() as int) == name
        },
        !(name.len() > 0 && is_separator(name[0], sep)) && (dir.len() == 0 || is_separator(dir.last(), sep))
            ==> joined(dir, name, sep).len() == dir.len() + name.len() && joined(dir, name, sep).subrange(
            0,
            dir.len() as int,
        ) == dir && joined(dir, name, sep).subrange(dir.len() as int, (dir.len() + name.len()) as int) == name,
{
    let p = joined(dir, name, sep);
    if !(name.len() > 0 && is_separator(name[0], sep)) {
        if dir.len() > 0 && !is_separator(dir.last(), sep) {
            assert(p.subrange(0, dir.len() as int) =~= dir);
            assert(p.subrange(dir.len() + 1int, p.len() as int) =~= name);
        } else {
            assert(p.subrange(0, dir.len() as int) =~= dir);
            assert(p.subrange(dir.len() as int, (dir.len() + name.len()) as int) =~= name);
        }
    }
}

} // verus!
