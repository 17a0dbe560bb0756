//! What a folder listing holds and in what order, stated in terms of the
//! folder's entries and their names alone.

use vstd::prelude::*;
use vstd::string::*;
use crate::files::{is_picture_name, is_workbook_name, listing_of, name_lt, new_workbook_name, ListingPlan};

verus! {

/// The order pictures are sorted in: `a` comes strictly before `b` exactly
/// when `a` is a proper beginning of `b`, or when at the first position
/// where they differ the character of `a` has the lower code point.
pub proof fn law_name_order(a: Seq<char>, b: Seq<char>)
    ensures
        name_lt(a, b) <==> ((a.len() < b.len() && a == b.subrange(0, a.len() as int)) || exists|i: int|
            0 <= i < a.len() && i < b.len() && a.subrange(0, i) == b.subrange(0, i) && (a[i] as u32) < (
            #[trigger] b[i] as u32)),
    decreases a.len(),
{
    if a.len() == 0 {
        assert(a =~= b.subrange(0, 0));
    } else if b.len() == 0 {
    } else if a[0] != b[0] {
        if a.len() < b.len() && a == b.subrange(0, a.len() as int) {
            assert(a[0] == b.subrange(0, a.len() as int)[0]);
        }
        assert forall|i: int|
            0 <= i < a.len() && i < b.len() && a.subrange(0, i) == b.subrange(0, i) && (a[i] as u32) < (
            #[trigger] b[i] as u32) implies i == 0 by {
            if i > 0 {
                assert(a.subrange(0, i)[0] == b.subrange(0, i)[0]);
            }
        }
        if (a[0] as u32) < (b[0] as u32) {
            assert(a.subrange(0, 0) =~= b.subrange(0, 0));
            assert(b[0] == b[0]);
        }
    } else {
        let a1 = a.drop_first();
        let b1 = b.drop_first();
        law_name_order(a1, b1);
        // prefix case
        if a.len() < b.len() && a == b.subrange(0, a.len() as int) {
            assert(a1 =~= b1.subrange(0, a1.len() as int));
        }
        if a1.len() < b1.len() && a1 == b1.subrange(0, a1.len() as int) {
            assert(a =~= b.subrange(0, a.len() as int)) by {
                assert forall|k: int| 0 <= k < a.len() implies #[trigger] a[k] == b.subrange(0, a.len() as int)[k] by {
                    if k > 0 {
                        assert(a[k] == a1[k - 1]);
                        assert(a1[k - 1] == b1.subrange(0, a1.len() as int)[k - 1]);
                    }
                }
            }
        }
        // differing position case
        if exists|i: int|
            0 <= i < a.len() && i < b.len() && a.subrange(0, i) == b.subrange(0, i) && (a[i] as u32) < (
            #[trigger] b[i] as u32) {
            let i = choose|i: int|
                0 <= i < a.len() && i < b.len() && a.subrange(0, i) == b.subrange(0, i) && (a[i] as u32) < (
                #[trigger] b[i] as u32);
            assert(i > 0);
            assert(a1.subrange(0, i - 1) =~= b1.subrange(0, i - 1)) by {
                assert forall|k: int| 0 <= k < i - 1 implies #[trigger] a1.subrange(0, i - 1)[k] == b1.subrange(0, i - 1)[k] by {
                    assert(a.subrange(0, i)[k + 1] == b.subrange(0, i)[k + 1]);
                }
            }
            assert(a1[i - 1] == a[i] && b1[i - 1] == b[i]);
        }
        if exists|i: int|
            0 <= i < a1.len() && i < b1.len() && a1.subrange(0, i) == b1.subrange(0, i) && (a1[i] as u32) < (
            #[trigger] b1[i] as u32) {
            let i = choose|i: int|
                0 <= i < a1.len() && i < b1.len() && a1.subrange(0, i) == b1.subrange(0, i) && (a1[i] as u32) < (
                #[trigger] b1[i] as u32);
            assert(a.subrange(0, i + 1) =~= b.subrange(0, i + 1)) by {
                assert forall|k: int| 0 <= k < i + 1 implies #[trigger] a.subrange(0, i + 1)[k] == b.subrange(0, i + 1)[k] by {
                    if k > 0 {
                        assert(a1.subrange(0, i)[k - 1] == b1.subrange(0, i)[k - 1]);
                    }
                }
            }
            assert(a[i + 1] == a1[i] && b[i + 1] == b1[i]);
        }
    }
}

/// A folder listing holds exactly: every entry of the folder whose name
/// ends with `xlsx`, marked as a workbook; every entry whose name ends with
/// `jpg` but not `xlsx`, marked as a picture; and, for a folder without a
/// workbook, the workbook created for it, when it was created. Nothing else
/// is listed.
pub proof fn law_listing_contents(
    names: Seq<String>,
    dir_name: Option<String>,
    plan: ListingPlan,
    created: bool,
)
    requires
        plan.planned_from(names, dir_name),
    ensures
        ({
            let out = listing_of(plan, created);
            &&& forall|n: String|
                names.contains(n) && "xlsx"@.is_suffix_of(n@) ==> #[trigger] out.contains((n, true))
            &&& forall|n: String|
                names.contains(n) && !"xlsx"@.is_suffix_of(n@) && "jpg"@.is_suffix_of(n@)
                    ==> #[trigger] out.contains((n, false))
            &&& forall|i: int|
                0 <= i < out.len() && !(#[trigger] out[i]).1 ==> names.contains(out[i].0) && "jpg"@.is_suffix_of(
                    out[i].0@,
                ) && !"xlsx"@.is_suffix_of(out[i].0@)
            &&& forall|i: int|
                0 <= i < out.len() && (#[trigger] out[i]).1 ==> (names.contains(out[i].0)
                    && "xlsx"@.is_suffix_of(out[i].0@)) || (created && out[i].0@ == "list_"@ + (match dir_name {
                    Some(d) => d@,
                    None => "sans_nom"@,
                }) + ".xlsx"@ && forall|m: String| names.contains(m) ==> !"xlsx"@.is_suffix_of(m@))
        }),
{
    broadcast use vstd::seq_lib::group_filter_ensures, vstd::seq_lib::group_to_multiset_ensures;

    let out = listing_of(plan, created);
    let wbp = |n: String| is_workbook_name(n);
    let picp = |n: String| is_picture_name(n);
    let wb = names.filter(wbp);
    let pics = names.filter(picp);
    let extra: Seq<(String, bool)> = match plan.new_workbook {
        Some(n) => if created {
            seq![(n, true)]
        } else {
            Seq::empty()
        },
        None => Seq::empty(),
    };
    let head = plan.workbooks@ + extra;
    let pnames = plan.pictures@.map_values(|e: (String, bool)| e.0);
    assert(out == head + plan.pictures@);
    assert forall|n: String| names.contains(n) && "xlsx"@.is_suffix_of(n@) implies #[trigger] out.contains(
        (n, true),
    ) by {
        assert(wbp(n));
        assert(wb.contains(n));
        let k = choose|k: int| 0 <= k < wb.len() && wb[k] == n;
        assert(plan.workbooks@[k] == (n, true));
        assert(out[k] == (n, true));
    }
    assert forall|n: String|
        names.contains(n) && !"xlsx"@.is_suffix_of(n@) && "jpg"@.is_suffix_of(n@) implies #[trigger] out.contains(
        (n, false),
    ) by {
        assert(picp(n));
        assert(pics.contains(n));
        assert(pics.to_multiset().count(n) > 0);
        assert(pnames.to_multiset().count(n) > 0);
        assert(pnames.contains(n));
        let k = choose|k: int| 0 <= k < pnames.len() && pnames[k] == n;
        assert(plan.pictures@[k].0 == n);
        assert(!plan.pictures@[k].1);
        assert(plan.pictures@[k] == (n, false));
        assert(out[head.len() + k] == (n, false));
    }
    assert forall|i: int| 0 <= i < out.len() && !(#[trigger] out[i]).1 implies names.contains(out[i].0)
        && "jpg"@.is_suffix_of(out[i].0@) && !"xlsx"@.is_suffix_of(out[i].0@) by {
        if i < head.len() {
            if i < plan.workbooks@.len() {
                assert(out[i] == plan.workbooks@[i]);
                assert(plan.workbooks@[i] == (wb[i], true));
            } else {
                assert(out[i] == extra[i - plan.workbooks@.len()]);
            }
        } else {
            let x = pnames[i - head.len()];
            assert(out[i] == plan.pictures@[i - head.len()]);
            assert(out[i].0 == x);
            assert(pnames.to_multiset().count(x) > 0);
            assert(pics.to_multiset().count(x) > 0);
            assert(pics.contains(x));
            let k = choose|k: int| 0 <= k < pics.len() && pics[k] == x;
            assert(picp(pics[k]));
            names.lemma_filter_contains_rev(picp, x);
        }
    }
    assert forall|i: int| 0 <= i < out.len() && (#[trigger] out[i]).1 implies (names.contains(out[i].0)
        && "xlsx"@.is_suffix_of(out[i].0@)) || (created && out[i].0@ == "list_"@ + (match dir_name {
        Some(d) => d@,
        None => "sans_nom"@,
    }) + ".xlsx"@ && forall|m: String| names.contains(m) ==> !"xlsx"@.is_suffix_of(m@)) by {
        if i < plan.workbooks@.len() {
            assert(out[i] == plan.workbooks@[i]);
            assert(plan.workbooks@[i] == (wb[i], true));
            assert(wbp(wb[i]));
            names.lemma_filter_contains_rev(wbp, wb[i]);
        } else if i < head.len() {
            assert(out[i] == extra[i - plan.workbooks@.len()]);
            assert(wb.len() == 0);
            assert forall|m: String| names.contains(m) implies !"xlsx"@.is_suffix_of(m@) by {
                if "xlsx"@.is_suffix_of(m@) {
                    assert(wbp(m));
                    assert(wb.contains(m));
                }
            }
        } else {
            assert(out[i] == plan.pictures@[i - head.len()]);
        }
    }
}

} // verus!
