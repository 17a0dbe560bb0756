//! What reading a workbook promises: when a file is read again, and that
//! the text of a cell reads back as the value it holds.

use vstd::prelude::*;
use vstd::string::*;
use crate::excel::reader::{cell_text, date_text, reload_needed, CalendarDate, CellData, FileTime};
use crate::gui::update::orientation_of;
use crate::laws::lemma_decimal_digits;
use crate::text::{all_digits, decimal, digits_value, is_digit, parse_usize, unsigned_digits, zero_padded};

verus! {

/// `10` to the power `k`.
pub open spec fn pow10(k: nat) -> nat
    decreases k,
{
    if k == 0 {
        1
    } else {
        10 * pow10((k - 1) as nat)
    }
}

proof fn lemma_decimal_short(n: nat, k: nat)
    requires
        k > 0,
        n < pow10(k),
    ensures
        decimal(n).len() <= k,
    decreases k,
{
    if n >= 10 {
        assert(k > 1) by {
            if k == 1 {
                assert(pow10(1) == 10 * pow10(0));
            }
        }
        assert(n / 10 < pow10((k - 1) as nat)) by {
            assert(pow10(k) == 10 * pow10((k - 1) as nat));
        }
        lemma_decimal_short(n / 10, (k - 1) as nat);
    }
}

proof fn lemma_leading_zeros(z: nat, d: Seq<char>)
    ensures
        digits_value(Seq::new(z, |i: int| '0') + d) == digits_value(d),
    decreases d.len(), z,
{
    let zs = Seq::new(z, |i: int| '0');
    let s = zs + d;
    if d.len() > 0 {
        assert(s.drop_last() =~= zs + d.drop_last());
        assert(s.last() == d.last());
        lemma_leading_zeros(z, d.drop_last());
    } else if z > 0 {
        assert(s =~= zs);
        let shorter = Seq::new((z - 1) as nat, |i: int| '0');
        assert(s.drop_last() =~= shorter + d);
        lemma_leading_zeros((z - 1) as nat, d);
        assert(digits_value(shorter + d) == 0) by {
            assert(shorter + d =~= shorter + Seq::<char>::empty());
        }
    } else {
        assert(s =~= Seq::<char>::empty());
    }
}

/// A number written with at least `width` digits is `width` digits long
/// when it has no more digits than that, holds only digits, and reads back
/// as the number.
pub proof fn law_zero_padded_reads_back(n: nat, width: nat)
    requires
        width > 0,
        n < pow10(width),
    ensures
        zero_padded(n, width).len() == width,
        all_digits(zero_padded(n, width)),
        digits_value(zero_padded(n, width)) == n,
{
    lemma_decimal_digits(n);
    lemma_decimal_short(n, width);
    let d = decimal(n);
    if d.len() < width {
        let zs = Seq::new((width - d.len()) as nat, |i: int| '0');
        lemma_leading_zeros((width - d.len()) as nat, d);
        assert forall|i: int| 0 <= i < zeros_and(zs, d).len() implies is_digit(#[trigger] zeros_and(zs, d)[i]) by {
            if i >= zs.len() {
                assert(zeros_and(zs, d)[i] == d[i - zs.len()]);
            }
        }
    }
}

spec fn zeros_and(zs: Seq<char>, d: Seq<char>) -> Seq<char> {
    zs + d
}

/// A date cell reads as `dd-mm-yyyy`: for a day, month and year of a
/// calendar date between years 0 and 9999, the text is ten characters long,
/// with `-` at positions 2 and 5, and its three numbers read back as the
/// day, the month and the year.
pub proof fn law_date_reads_back(d: CalendarDate, value: String)
    requires
        1 <= d.day <= 31,
        1 <= d.month <= 12,
        0 <= d.year <= 9999,
    ensures
        ({
            let t = cell_text(CellData::DateTime { date: Some(d), value });
            &&& t.len() == 10
            &&& t[2] == '-' && t[5] == '-'
            &&& all_digits(t.subrange(0, 2)) && digits_value(t.subrange(0, 2)) == d.day
            &&& all_digits(t.subrange(3, 5)) && digits_value(t.subrange(3, 5)) == d.month
            &&& all_digits(t.subrange(6, 10)) && digits_value(t.subrange(6, 10)) == d.year
        }),
{
    reveal_with_fuel(pow10, 5);
    law_zero_padded_reads_back(d.day as nat, 2);
    law_zero_padded_reads_back(d.month as nat, 2);
    law_zero_padded_reads_back(d.year as nat, 4);
    let t = date_text(d);
    let a = zero_padded(d.day as nat, 2);
    let b = zero_padded(d.month as nat, 2);
    let c = zero_padded(d.year as nat, 4);
    assert(t =~= a + seq!['-'] + b + seq!['-'] + c);
    assert(t.subrange(0, 2) =~= a);
    assert(t.subrange(3, 5) =~= b);
    assert(t.subrange(6, 10) =~= c);
}

/// An integer cell reads back as its value: a non-negative one parses as
/// that number, a negative one is `-` followed by a numeral that parses as
/// its magnitude (whenever the magnitude fits in a `usize`).
pub proof fn law_integer_reads_back(i: i64)
    ensures
        0 <= i <= usize::MAX ==> parse_usize(cell_text(CellData::Int(i))) == Some(i as usize),
        i < 0 ==> cell_text(CellData::Int(i))[0] == '-',
        i < 0 && -i <= usize::MAX ==> parse_usize(cell_text(CellData::Int(i)).drop_first()) == Some(
            (-i) as usize,
        ),
{
    if 0 <= i <= usize::MAX {
        crate::laws::law_decimal_parses_back(i as usize);
        assert((i as usize) as nat == i as nat);
    } else if i < 0 {
        let m = (-i) as nat;
        lemma_decimal_digits(m);
        let t = cell_text(CellData::Int(i));
        assert(t =~= seq!['-'] + decimal(m));
        assert(t.drop_first() =~= decimal(m));
        let s = decimal(m);
        assert(is_digit(s[0]));
        assert(unsigned_digits(s) == s);
    }
}

/// The other cells read as what they hold: text as itself, an empty cell as
/// nothing, a boolean as `true` or `false`, and an error value after the
/// word `Erreur: `.
pub proof fn law_plain_cells_read_as_held(s: String, b: bool, e: crate::excel::reader::CellError)
    ensures
        cell_text(CellData::String(s)) == s@,
        cell_text(CellData::DateTimeIso(s)) == s@,
        cell_text(CellData::DurationIso(s)) == s@,
        cell_text(CellData::Float(s)) == s@,
        cell_text(CellData::Empty).len() == 0,
        cell_text(CellData::Bool(b)) == (if b { "true"@ } else { "false"@ }),
        cell_text(CellData::Error(e)).subrange(0, 8) == "Erreur: "@,
        cell_text(CellData::DateTime { date: None, value: s }) == s@,
{
    reveal_strlit("Erreur: ");
    let t = cell_text(CellData::Error(e));
    assert(t.subrange(0, 8) =~= "Erreur: "@);
}

/// A workbook never read is read; one whose modification time is the time
/// of the copy read is not read again; any other time makes it read again.
pub proof fn law_when_a_workbook_is_read(modified: FileTime, other: FileTime)
    ensures
        reload_needed(modified, None),
        !reload_needed(modified, Some(modified)),
        other != modified ==> reload_needed(modified, Some(other)),
{
}

/// The EXIF orientation tag written for a turn: 6 ("rotate 90 degrees
/// clockwise to display") for a quarter turn clockwise, 3 for a half turn,
/// 8 for three quarters, and 1 (as taken) when the picture is not turned.
pub proof fn law_orientation_tags(angle: u32)
    ensures
        orientation_of(90) == 6,
        orientation_of(180) == 3,
        orientation_of(270) == 8,
        angle % 90 != 0 || angle == 0 || angle >= 360 ==> orientation_of(angle) == 1,
{
}

} // verus!
