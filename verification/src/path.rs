//! File names and paths: the final component of a path, its extension, the
//! kinds of files the tool shows, and joining a folder with a file name.
//!
//! A path is split at its separators: `/`, and the platform's main
//! separator `sep` (`/` on Unix, `\` on Windows), as the standard library
//! splits it on either platform. Components are read the way the standard
//! library documents it: repeated separators and `.` components are ignored,
//! a trailing separator is ignored, and a final `..` has no file name.
//! Windows path prefixes (drive letters, UNC shares) are not modelled: the
//! names handled here are entries of a folder listing.

use vstd::prelude::*;
use vstd::string::*;
use crate::text::{ascii_lower, chars_of, range_lower_eq};

verus! {

/// Whether `c` separates path components on a platform whose main
/// separator is `sep`.
pub open spec fn is_separator(c: char, sep: char) -> bool {
    c == '/' || c == sep
}

/// `is_separator` on executable characters.
pub fn separates(c: char, sep: char) -> (r: bool)
    ensures
        r == is_separator(c, sep),
{
    c == '/' || c == sep
}

/// The characters after the last separator of `p` (all of `p` when it holds
/// none).
pub open spec fn last_segment(p: Seq<char>, sep: char) -> Seq<char>
    decreases p.len(),
{
    if p.len() == 0 || is_separator(p.last(), sep) {
        Seq::empty()
    } else {
        last_segment(p.drop_last(), sep).push(p.last())
    }
}

/// The final component of the path `p` when it is a normal name: what
/// `Path::file_name` gives.
pub open spec fn file_name(p: Seq<char>, sep: char) -> Option<Seq<char>>
    decreases p.len(),
{
    if p.len() == 0 {
        None
    } else if is_separator(p.last(), sep) {
        file_name(p.drop_last(), sep)
    } else if last_segment(p, sep) == seq!['.'] {
        if p.len() == 1 {
            None
        } else {
            file_name(p.drop_last(), sep)
        }
    } else if last_segment(p, sep) == seq!['.', '.'] {
        None
    } else {
        Some(last_segment(p, sep))
    }
}

/// The index of the last occurrence of `c` in `s`, or -1.
pub open spec fn last_index_of(s: Seq<char>, c: char) -> int
    decreases s.len(),
{
    if s.len() == 0 {
        -1
    } else if s.last() == c {
        s.len() - 1
    } else {
        last_index_of(s.drop_last(), c)
    }
}

/// The extension of a file name: the part after its last `.`, provided the
/// name holds a `.` that is not its first character.
pub open spec fn name_extension(f: Seq<char>) -> Option<Seq<char>> {
    let d = last_index_of(f, '.');
    if d <= 0 {
        None
    } else {
        Some(f.subrange(d + 1, f.len() as int))
    }
}

/// The extension of the path `p`, as `Path::extension` documents it.
pub open spec fn extension(p: Seq<char>, sep: char) -> Option<Seq<char>> {
    match file_name(p, sep) {
        Some(f) => name_extension(f),
        None => None,
    }
}

/// The extensions (in lower case) of the pictures the tool can show.
pub open spec fn image_extensions() -> Set<Seq<char>> {
    set![
        seq!['j', 'p', 'g'],
        seq!['j', 'p', 'e', 'g'],
        seq!['p', 'n', 'g'],
        seq!['b', 'm', 'p'],
        seq!['g', 'i', 'f'],
        seq!['w', 'e', 'b', 'p'],
        seq!['t', 'i', 'f'],
        seq!['t', 'i', 'f', 'f'],
    ]
}

/// Whether the path names a picture: its extension, folded to ASCII lower
/// case, is one of `image_extensions`.
pub open spec fn is_image_path(p: Seq<char>, sep: char) -> bool {
    match extension(p, sep) {
        Some(e) => image_extensions().contains(ascii_lower(e)),
        None => false,
    }
}

/// Whether the path names a workbook: its extension is `xlsx` in any ASCII
/// case.
pub open spec fn is_xlsx_path(p: Seq<char>, sep: char) -> bool {
    match extension(p, sep) {
        Some(e) => ascii_lower(e) == seq!['x', 'l', 's', 'x'],
        None => false,
    }
}

pub(crate) proof fn lemma_last_index_of_bounds(s: Seq<char>, c: char)
    ensures
        -1 <= last_index_of(s, c) < s.len(),
        last_index_of(s, c) >= 0 ==> s[last_index_of(s, c)] == c,
        forall|i: int| last_index_of(s, c) < i < s.len() ==> #[trigger] s[i] != c,
    decreases s.len(),
{
    if s.len() != 0 && s.last() != c {
        lemma_last_index_of_bounds(s.drop_last(), c);
        assert forall|i: int| last_index_of(s, c) < i < s.len() implies #[trigger] s[i] != c by {
            if i < s.len() - 1 {
                assert(s[i] == s.drop_last()[i]);
            }
        }
    }
}

proof fn lemma_last_segment_len(p: Seq<char>, sep: char)
    ensures
        last_segment(p, sep).len() <= p.len(),
        last_segment(p, sep) == p.subrange(p.len() - last_segment(p, sep).len(), p.len() as int),
        last_segment(p, sep).len() < p.len() ==> is_separator(
            p[p.len() - last_segment(p, sep).len() - 1],
            sep,
        ),
        forall|i: int|
            p.len() - last_segment(p, sep).len() <= i < p.len() ==> !is_separator(
                #[trigger] p[i],
                sep,
            ),
    decreases p.len(),
{
    if p.len() != 0 && !is_separator(p.last(), sep) {
        lemma_last_segment_len(p.drop_last(), sep);
        assert(last_segment(p, sep) =~= p.subrange(
            p.len() - last_segment(p, sep).len(),
            p.len() as int,
        ));
        assert forall|i: int|
            p.len() - last_segment(p, sep).len() <= i < p.len() implies !is_separator(
            #[trigger] p[i],
            sep,
        ) by {
            if i < p.len() - 1 {
                assert(p[i] == p.drop_last()[i]);
            }
        }
    }
}

/// Start of the last segment of `cs[..end]`.
fn segment_start(cs: &Vec<char>, end: usize, sep: char) -> (start: usize)
    requires
        end <= cs@.len(),
    ensures
        start <= end,
        cs@.subrange(start as int, end as int) == last_segment(cs@.subrange(0, end as int), sep),
{
    let mut start = end;
    while start > 0 && !separates(cs[start - 1], sep)
        invariant
            start <= end <= cs@.len(),
            forall|i: int| start <= i < end ==> !is_separator(cs@[i], sep),
        decreases start,
    {
        start = start - 1;
    }
    proof {
        let p = cs@.subrange(0, end as int);
        lemma_last_segment_len(p, sep);
        let k = p.len() - last_segment(p, sep).len();
        if k > start {
            assert(is_separator(p[k - 1], sep));
        }
        if k < start {
            assert(is_separator(cs@[start - 1], sep));
            assert(is_separator(p[start - 1], sep));
        }
        assert(k == start);
        assert(cs@.subrange(start as int, end as int) =~= p.subrange(k, p.len() as int));
    }
    start
}

/// Bounds of the file name of `cs[..end]`.
fn file_name_bounds(cs: &Vec<char>, end: usize, sep: char) -> (r: Option<(usize, usize)>)
    requires
        end <= cs@.len(),
    ensures
        match r {
            Some((a, b)) => a <= b <= end && file_name(cs@.subrange(0, end as int), sep) == Some(
                cs@.subrange(a as int, b as int),
            ),
            None => file_name(cs@.subrange(0, end as int), sep) is None,
        },
    decreases end,
{
    let ghost p = cs@.subrange(0, end as int);
    if end == 0 {
        return None;
    }
    assert(p.drop_last() =~= cs@.subrange(0, end - 1));
    if separates(cs[end - 1], sep) {
        return file_name_bounds(cs, end - 1, sep);
    }
    let start = segment_start(cs, end, sep);
    let ghost seg = cs@.subrange(start as int, end as int);
    if end - start == 1 && cs[start] == '.' {
        assert(seg =~= seq!['.']);
        if end == 1 {
            return None;
        }
        return file_name_bounds(cs, end - 1, sep);
    }
    assert(seg != seq!['.']) by {
        if seg.len() == 1 {
            assert(seg[0] == cs@[start as int]);
        }
    }
    if end - start == 2 && cs[start] == '.' && cs[start + 1] == '.' {
        assert(seg =~= seq!['.', '.']);
        return None;
    }
    assert(seg != seq!['.', '.']) by {
        if seg.len() == 2 {
            assert(seg[0] == cs@[start as int]);
            assert(seg[1] == cs@[start + 1]);
        }
    }
    Some((start, end))
}

/// Index of the last `.` in `cs[a..b]`, relative to `a`, or `None`.
fn last_dot(cs: &Vec<char>, a: usize, b: usize) -> (r: Option<usize>)
    requires
        a <= b <= cs@.len(),
    ensures
        match r {
            Some(d) => d < b - a && d as int == last_index_of(cs@.subrange(a as int, b as int), '.'),
            None => last_index_of(cs@.subrange(a as int, b as int), '.') == -1,
        },
{
    let mut i = b;
    while i > a
        invariant
            a <= i <= b <= cs@.len(),
            last_index_of(cs@.subrange(a as int, b as int), '.') == last_index_of(
                cs@.subrange(a as int, i as int),
                '.',
            ),
        decreases i,
    {
        assert(cs@.subrange(a as int, i as int).drop_last() =~= cs@.subrange(a as int, i - 1));
        if cs[i - 1] == '.' {
            proof {
                lemma_last_index_of_bounds(cs@.subrange(a as int, i as int), '.');
            }
            return Some(i - 1 - a);
        }
        i = i - 1;
    }
    None
}

/// Bounds of the extension of the path held in `cs`.
fn extension_bounds(cs: &Vec<char>, sep: char) -> (r: Option<(usize, usize)>)
    ensures
        match r {
            Some((a, b)) => a <= b <= cs@.len() && extension(cs@, sep) == Some(
                cs@.subrange(a as int, b as int),
            ),
            None => extension(cs@, sep) is None,
        },
{
    assert(cs@.subrange(0, cs@.len() as int) =~= cs@);
    match file_name_bounds(cs, cs.len(), sep) {
        None => None,
        Some((a, b)) => {
            match last_dot(cs, a, b) {
                None => None,
                Some(d) => {
                    if d == 0 {
                        None
                    } else {
                        assert(cs@.subrange(a as int, b as int).subrange(d + 1, b - a) =~= cs@.subrange(
                            a + d + 1,
                            b as int,
                        ));
                        Some((a + d + 1, b))
                    }
                }
            }
        }
    }
}

/// Whether `name` is the name of a picture the tool can show: its extension,
/// in any ASCII case, is jpg, jpeg, png, bmp, gif, webp, tif or tiff. `sep`
/// is the platform's main path separator.
pub fn is_supported_image(name: &str, sep: char) -> (r: bool)
    ensures
        r == is_image_path(name@, sep),
{
    let cs = chars_of(name);
    match extension_bounds(&cs, sep) {
        None => false,
        Some((a, b)) => {
            proof {
                reveal_strlit("jpg");
                reveal_strlit("jpeg");
                reveal_strlit("png");
                reveal_strlit("bmp");
                reveal_strlit("gif");
                reveal_strlit("webp");
                reveal_strlit("tif");
                reveal_strlit("tiff");
                assert("jpg"@ =~= seq!['j', 'p', 'g']);
                assert("jpeg"@ =~= seq!['j', 'p', 'e', 'g']);
                assert("png"@ =~= seq!['p', 'n', 'g']);
                assert("bmp"@ =~= seq!['b', 'm', 'p']);
                assert("gif"@ =~= seq!['g', 'i', 'f']);
                assert("webp"@ =~= seq!['w', 'e', 'b', 'p']);
                assert("tif"@ =~= seq!['t', 'i', 'f']);
                assert("tiff"@ =~= seq!['t', 'i', 'f', 'f']);
            }
            range_lower_eq(&cs, a, b, "jpg") || range_lower_eq(&cs, a, b, "jpeg")
                || range_lower_eq(&cs, a, b, "png") || range_lower_eq(&cs, a, b, "bmp")
                || range_lower_eq(&cs, a, b, "gif") || range_lower_eq(&cs, a, b, "webp")
                || range_lower_eq(&cs, a, b, "tif") || range_lower_eq(&cs, a, b, "tiff")
        },
    }
}

/// Whether `name` names a workbook: its extension is `xlsx` in any ASCII
/// case. `sep` is the platform's main path separator.
pub fn is_xlsx(name: &str, sep: char) -> (r: bool)
    ensures
        r == is_xlsx_path(name@, sep),
{
    let cs = chars_of(name);
    match extension_bounds(&cs, sep) {
        None => false,
        Some((a, b)) => {
            proof {
                reveal_strlit("xlsx");
                assert("xlsx"@ =~= seq!['x', 'l', 's', 'x']);
            }
            range_lower_eq(&cs, a, b, "xlsx")
        },
    }
}


/// The path of `name` inside the folder `dir`, as `Path::join` builds it: a
/// `name` that starts with a separator stands alone; otherwise `name` follows
/// `dir`, with the main separator `sep` between them unless `dir` is empty or
/// already ends with a separator.
pub open spec fn joined(dir: Seq<char>, name: Seq<char>, sep: char) -> Seq<char> {
    if name.len() > 0 && is_separator(name[0], sep) {
        name
    } else if dir.len() == 0 || is_separator(dir.last(), sep) {
        dir + name
    } else {
        dir + seq![sep] + name
    }
}

/// `joined` on executable strings.
pub fn join_path(dir: &str, name: &str, sep: char) -> (p: String)
    ensures
        p@ == joined(dir@, name@, sep),
{
    let n = name.unicode_len();
    if n > 0 && separates(name.get_char(0), sep) {
        return String::from_str(name);
    }
    let d = dir.unicode_len();
    let mut p = String::from_str(dir);
    if d > 0 && !separates(dir.get_char(d - 1), sep) {
        crate::text::push_char(&mut p, sep);
    }
    p.append(name);
    p
}

} // verus!
