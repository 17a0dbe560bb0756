//! The listing of a folder: its workbooks first, in the order the folder
//! gives them, then its pictures sorted by name; and the name of the
//! workbook created when the folder holds none.

use vstd::prelude::*;
use vstd::string::*;
use crate::text::{chars_of, concat_str, ends_with};

verus! {

broadcast use vstd::seq_lib::group_to_multiset_ensures;

/// Strict lexicographic order on character sequences, comparing characters
/// by code point. On strings this is the order of `String`'s `Ord`, which
/// compares the UTF-8 bytes.
pub open spec fn name_lt(a: Seq<char>, b: Seq<char>) -> bool
    decreases a.len(),
{
    if a.len() == 0 {
        b.len() > 0
    } else if b.len() == 0 {
        false
    } else if a[0] != b[0] {
        (a[0] as u32) < (b[0] as u32)
    } else {
        name_lt(a.drop_first(), b.drop_first())
    }
}

/// Whether the names are in non-decreasing order.
pub open spec fn sorted_names(s: Seq<String>) -> bool {
    forall|i: int, j: int| 0 <= i < j < s.len() ==> !name_lt(#[trigger] s[j]@, #[trigger] s[i]@)
}

/// Whether a folder entry is listed as a workbook: its name ends with `xlsx`.
pub open spec fn is_workbook_name(n: String) -> bool {
    "xlsx"@.is_suffix_of(n@)
}

/// Whether a folder entry is listed as a picture: its name ends with `jpg`
/// and not with `xlsx`.
pub open spec fn is_picture_name(n: String) -> bool {
    !is_workbook_name(n) && "jpg"@.is_suffix_of(n@)
}

/// The name given to the workbook created in a folder that holds none:
/// `list_` followed by the folder's name (`sans_nom` when it has none) and
/// `.xlsx`.
pub open spec fn new_workbook_name(dir_name: Option<String>) -> Seq<char> {
    let d = match dir_name {
        Some(n) => n@,
        None => "sans_nom"@,
    };
    "list_"@ + d + ".xlsx"@
}

/// Listing entries: a name and whether it is a workbook.
pub open spec fn entries(names: Seq<String>, workbook: bool) -> Seq<(String, bool)> {
    names.map_values(|n: String| (n, workbook))
}

/// What a folder listing is made of, before the missing workbook, if any,
/// has been created.
pub struct ListingPlan {
    /// The workbooks, in folder order.
    pub workbooks: Vec<(String, bool)>,
    /// The pictures, sorted by name.
    pub pictures: Vec<(String, bool)>,
    /// The workbook to create, when the folder holds none.
    pub new_workbook: Option<String>,
}

impl ListingPlan {
    /// What `plan_listing` gives for the entries `names` of a folder named
    /// `dir_name`.
    pub open spec fn planned_from(self, names: Seq<String>, dir_name: Option<String>) -> bool {
        let wb = names.filter(|n: String| is_workbook_name(n));
        let pics = names.filter(|n: String| is_picture_name(n));
        &&& self.workbooks@ == entries(wb, true)
        &&& self.pictures@.len() == pics.len()
        &&& forall|i: int| 0 <= i < self.pictures@.len() ==> !(#[trigger] self.pictures@[i]).1
        &&& self.pictures@.map_values(|e: (String, bool)| e.0).to_multiset() == pics.to_multiset()
        &&& sorted_names(self.pictures@.map_values(|e: (String, bool)| e.0))
        &&& match self.new_workbook {
            Some(n) => wb.len() == 0 && n@ == new_workbook_name(dir_name),
            None => wb.len() > 0,
        }
    }
}

proof fn lemma_name_lt_irreflexive(a: Seq<char>)
    ensures
        !name_lt(a, a),
    decreases a.len(),
{
    if a.len() > 0 {
        lemma_name_lt_irreflexive(a.drop_first());
    }
}

proof fn lemma_name_lt_asymmetric(a: Seq<char>, b: Seq<char>)
    ensures
        !(name_lt(a, b) && name_lt(b, a)),
    decreases a.len(),
{
    if a.len() > 0 && b.len() > 0 && a[0] == b[0] {
        lemma_name_lt_asymmetric(a.drop_first(), b.drop_first());
    }
}

proof fn lemma_name_lt_transitive(a: Seq<char>, b: Seq<char>, c: Seq<char>)
    requires
        name_lt(a, b),
        name_lt(b, c),
    ensures
        name_lt(a, c),
    decreases a.len(),
{
    if a.len() > 0 && b.len() > 0 && c.len() > 0 && a[0] == b[0] && b[0] == c[0] {
        lemma_name_lt_transitive(a.drop_first(), b.drop_first(), c.drop_first());
    }
}

/// Whether `a` sorts strictly before `b`.
pub fn name_less(a: &str, b: &str) -> (r: bool)
    ensures
        r == name_lt(a@, b@),
{
    let x = chars_of(a);
    let y = chars_of(b);
    let mut i: usize = 0;
    assert(a@.skip(0) =~= a@);
    assert(b@.skip(0) =~= b@);
    while i < x.len() && i < y.len() && x[i] == y[i]
        invariant
            x@ == a@,
            y@ == b@,
            i <= x@.len(),
            i <= y@.len(),
            name_lt(a@, b@) == name_lt(a@.skip(i as int), b@.skip(i as int)),
        decreases x@.len() - i,
    {
        assert(a@.skip(i as int).drop_first() =~= a@.skip(i + 1));
        assert(b@.skip(i as int).drop_first() =~= b@.skip(i + 1));
        i = i + 1;
    }
    if i == x.len() {
        i < y.len()
    } else if i == y.len() {
        false
    } else {
        (x[i] as u32) < (y[i] as u32)
    }
}

/// The names sorted in non-decreasing order, equal names keeping their
/// relative order.
pub fn sort_names(names: Vec<String>) -> (out: Vec<String>)
    ensures
        out@.to_multiset() == names@.to_multiset(),
        sorted_names(out@),
{
    let mut out: Vec<String> = Vec::new();
    let mut i: usize = 0;
    while i < names.len()
        invariant
            i <= names@.len(),
            out@.to_multiset() == names@.subrange(0, i as int).to_multiset(),
            sorted_names(out@),
        decreases names@.len() - i,
    {
        let x = names[i].clone();
        let mut k: usize = 0;
        while k < out.len() && !name_less(x.as_str(), out[k].as_str())
            invariant
                k <= out@.len(),
                forall|j: int| 0 <= j < k ==> !name_lt(x@, #[trigger] out@[j]@),
            decreases out@.len() - k,
        {
            k = k + 1;
        }
        let ghost old_out = out@;
        out.insert(k, x);
        proof {
            assert(out@ == old_out.insert(k as int, x));
            assert forall|a: int, b: int| 0 <= a < b < out@.len() implies !name_lt(
                #[trigger] out@[b]@,
                #[trigger] out@[a]@,
            ) by {
                if b < k {
                    assert(out@[a] == old_out[a] && out@[b] == old_out[b]);
                } else if b == k {
                    assert(out@[a] == old_out[a]);
                } else if a == k {
                    let ob = old_out[b - 1];
                    assert(out@[b] == ob);
                    lemma_name_lt_asymmetric(x@, old_out[k as int]@);
                    if b - 1 > k as int {
                        if name_lt(ob@, x@) {
                            lemma_name_lt_transitive(ob@, x@, old_out[k as int]@);
                        }
                    }
                } else if a < k {
                    assert(out@[a] == old_out[a] && out@[b] == old_out[b - 1]);
                } else {
                    assert(out@[a] == old_out[a - 1] && out@[b] == old_out[b - 1]);
                }
            }
            assert(names@.subrange(0, i + 1) =~= names@.subrange(0, i as int).push(names@[i as int]));
        }
        i = i + 1;
    }
    assert(names@.subrange(0, names@.len() as int) =~= names@);
    out
}


/// Splits the entries of a folder (their names, in the order the folder
/// gives them) into workbooks and pictures, sorts the pictures, and names
/// the workbook to create when there is none.
pub fn plan_listing(names: &Vec<String>, dir_name: Option<String>) -> (plan: ListingPlan)
    ensures
        plan.planned_from(names@, dir_name),
{
    let ghost wbp = |n: String| is_workbook_name(n);
    let ghost picp = |n: String| is_picture_name(n);
    let mut workbooks: Vec<(String, bool)> = Vec::new();
    let mut pics: Vec<String> = Vec::new();
    let mut i: usize = 0;
    while i < names.len()
        invariant
            i <= names@.len(),
            workbooks@ == entries(names@.subrange(0, i as int).filter(wbp), true),
            pics@ == names@.subrange(0, i as int).filter(picp),
            wbp == (|n: String| is_workbook_name(n)),
            picp == (|n: String| is_picture_name(n)),
        decreases names@.len() - i,
    {
        let name = &names[i];
        let ghost pre = names@.subrange(0, i as int);
        assert(names@.subrange(0, i + 1) =~= pre.push(*name));
        proof {
            pre.lemma_filter_push(*name, wbp);
            pre.lemma_filter_push(*name, picp);
        }
        let is_wb = ends_with(name.as_str(), "xlsx");
        assert(is_wb == wbp(*name));
        if is_wb {
            assert(pre.push(*name).filter(wbp) == pre.filter(wbp).push(*name));
            assert(pre.push(*name).filter(picp) == pre.filter(picp));
            workbooks.push((name.clone(), true));
            assert(workbooks@ =~= entries(pre.push(*name).filter(wbp), true));
        } else {
            assert(pre.push(*name).filter(wbp) == pre.filter(wbp));
            let is_pic = ends_with(name.as_str(), "jpg");
            assert(is_pic == picp(*name));
            if is_pic {
                assert(pre.push(*name).filter(picp) == pre.filter(picp).push(*name));
                pics.push(name.clone());
            } else {
                assert(pre.push(*name).filter(picp) == pre.filter(picp));
            }
        }
        i = i + 1;
    }
    assert(names@.subrange(0, names@.len() as int) =~= names@);
    let sorted = sort_names(pics);
    let mut pictures: Vec<(String, bool)> = Vec::new();
    let mut j: usize = 0;
    while j < sorted.len()
        invariant
            j <= sorted@.len(),
            pictures@ == entries(sorted@.subrange(0, j as int), false),
        decreases sorted@.len() - j,
    {
        pictures.push((sorted[j].clone(), false));
        assert(pictures@ =~= entries(sorted@.subrange(0, j + 1), false));
        j = j + 1;
    }
    assert(sorted@.subrange(0, sorted@.len() as int) =~= sorted@);
    assert(pictures@.map_values(|e: (String, bool)| e.0) =~= sorted@);
    let new_workbook = if workbooks.len() == 0 {
        let dir = match dir_name {
            Some(d) => d,
            None => String::from_str("sans_nom"),
        };
        let head = concat_str("list_", dir.as_str());
        Some(concat_str(head.as_str(), ".xlsx"))
    } else {
        None
    };
    let plan = ListingPlan { workbooks, pictures, new_workbook };
    proof {
        let wb = names@.filter(|n: String| is_workbook_name(n));
        let pics_all = names@.filter(|n: String| is_picture_name(n));
        assert(wb == names@.filter(wbp));
        assert(pics_all == names@.filter(picp));
        assert(plan.workbooks@ == entries(wb, true));
        assert forall|i: int| 0 <= i < plan.pictures@.len() implies !(#[trigger] plan.pictures@[i]).1 by {
            assert(plan.pictures@[i] == (sorted@[i], false));
        }
        assert(sorted@.to_multiset().len() == sorted@.len());
        assert(pics_all.to_multiset().len() == pics_all.len());
        assert(plan.pictures@.len() == pics_all.len());
    }
    plan
}

/// The listing a plan gives: its workbooks, then the workbook it asked to
/// create if it was created (`created`), then its pictures.
pub open spec fn listing_of(plan: ListingPlan, created: bool) -> Seq<(String, bool)> {
    plan.workbooks@ + (match plan.new_workbook {
        Some(n) => if created {
            seq![(n, true)]
        } else {
            Seq::empty()
        },
        None => Seq::empty(),
    }) + plan.pictures@
}

/// The listing of a folder, as `listing_of` states it. Each entry carries
/// whether it is a workbook.
pub fn list(plan: ListingPlan, created: bool) -> (out: Vec<(String, bool)>)
    ensures
        out@ == listing_of(plan, created),
{
    let ListingPlan { workbooks, pictures, new_workbook } = plan;
    let mut out = workbooks;
    match new_workbook {
        Some(n) => {
            if created {
                out.push((n, true));
            }
        },
        None => {},
    }
    let mut p = pictures;
    out.append(&mut p);
    out
}

} // verus!
