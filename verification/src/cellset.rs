//! Set algebra on selections of cells.

use std::collections::BTreeSet;
use vstd::prelude::*;

verus! {

broadcast use {vstd::std_specs::btree::group_btree_axioms, vstd::laws_cmp::group_laws_cmp};

/// Adds every cell of `add` to `cells`.
pub fn union_into(cells: &mut BTreeSet<(i32, i32)>, add: &BTreeSet<(i32, i32)>)
    ensures
        final(cells)@ == old(cells)@.union(add@),
{
    let ghost start = cells@;
    let ghost mut done: Set<(i32, i32)> = Set::empty();
    for c in it: add.iter()
        invariant
            it.seq().unref().to_set() == add@,
            done.subset_of(add@),
            cells@ == start.union(done),
            forall|p: (i32, i32)|
                #[trigger] add@.contains(p) ==> done.contains(p) || exists|k: int|
                    it.index() <= k < it.seq().len() && *it.seq()[k] == p,
    {
        proof {
            assert(it.seq().unref()[it.index()] == *c);
            assert(add@.contains(*c));
        }
        cells.insert(*c);
        proof {
            let ghost old_done = done;
            done = done.insert(*c);
            assert forall|p: (i32, i32)|
                #[trigger] add@.contains(p) implies done.contains(p) || exists|k: int|
                    it.index() + 1 <= k < it.seq().len() && *it.seq()[k] == p by {
                if !old_done.contains(p) && p != *c {
                    let k = choose|k: int| it.index() <= k < it.seq().len() && *it.seq()[k] == p;
                    assert(k != it.index());
                }
            }
        }
    }
    assert(cells@ =~= start.union(add@));
}

/// Removes every cell of `sub` from `cells`.
pub fn subtract_from(cells: &mut BTreeSet<(i32, i32)>, sub: &BTreeSet<(i32, i32)>)
    ensures
        final(cells)@ == old(cells)@.difference(sub@),
{
    let ghost start = cells@;
    let ghost mut done: Set<(i32, i32)> = Set::empty();
    for c in it: sub.iter()
        invariant
            it.seq().unref().to_set() == sub@,
            done.subset_of(sub@),
            cells@ == start.difference(done),
            forall|p: (i32, i32)|
                #[trigger] sub@.contains(p) ==> done.contains(p) || exists|k: int|
                    it.index() <= k < it.seq().len() && *it.seq()[k] == p,
    {
        proof {
            assert(it.seq().unref()[it.index()] == *c);
            assert(sub@.contains(*c));
        }
        cells.remove(c);
        proof {
            let ghost old_done = done;
            done = done.insert(*c);
            assert forall|p: (i32, i32)|
                #[trigger] sub@.contains(p) implies done.contains(p) || exists|k: int|
                    it.index() + 1 <= k < it.seq().len() && *it.seq()[k] == p by {
                if !old_done.contains(p) && p != *c {
                    let k = choose|k: int| it.index() <= k < it.seq().len() && *it.seq()[k] == p;
                    assert(k != it.index());
                }
            }
            assert(cells@ =~= start.difference(done));
        }
    }
    assert(cells@ =~= start.difference(sub@));
}

/// The cells in both sets.
pub fn intersection_of(a: &BTreeSet<(i32, i32)>, b: &BTreeSet<(i32, i32)>) -> (r: BTreeSet<(i32, i32)>)
    ensures
        r@ == a@.intersect(b@),
{
    let mut r: BTreeSet<(i32, i32)> = BTreeSet::new();
    let ghost mut done: Set<(i32, i32)> = Set::empty();
    for c in it: a.iter()
        invariant
            it.seq().unref().to_set() == a@,
            done.subset_of(a@),
            r@ == done.intersect(b@),
            forall|p: (i32, i32)|
                #[trigger] a@.contains(p) ==> done.contains(p) || exists|k: int|
                    it.index() <= k < it.seq().len() && *it.seq()[k] == p,
    {
        proof {
            assert(it.seq().unref()[it.index()] == *c);
            assert(a@.contains(*c));
        }
        if b.contains(c) {
            r.insert(*c);
        }
        proof {
            let ghost old_done = done;
            done = done.insert(*c);
            assert forall|p: (i32, i32)|
                #[trigger] a@.contains(p) implies done.contains(p) || exists|k: int|
                    it.index() + 1 <= k < it.seq().len() && *it.seq()[k] == p by {
                if !old_done.contains(p) && p != *c {
                    let k = choose|k: int| it.index() <= k < it.seq().len() && *it.seq()[k] == p;
                    assert(k != it.index());
                }
            }
            assert(r@ =~= done.intersect(b@));
        }
    }
    assert(r@ =~= a@.intersect(b@));
    r
}

/// Cells of the layer grid as signed selection cells.
pub open spec fn signed_cells(s: Set<(u32, u32)>) -> Set<(i32, i32)> {
    s.map(|c: (u32, u32)| (c.0 as i32, c.1 as i32))
}

/// Converts layer cells to signed selection cells.
pub fn to_signed_cells(cells: &BTreeSet<(u32, u32)>) -> (r: BTreeSet<(i32, i32)>)
    ensures
        r@ == signed_cells(cells@),
{
    let mut r: BTreeSet<(i32, i32)> = BTreeSet::new();
    let ghost mut done: Set<(u32, u32)> = Set::empty();
    for c in it: cells.iter()
        invariant
            it.seq().unref().to_set() == cells@,
            done.subset_of(cells@),
            r@ == signed_cells(done),
            forall|p: (u32, u32)|
                #[trigger] cells@.contains(p) ==> done.contains(p) || exists|k: int|
                    it.index() <= k < it.seq().len() && *it.seq()[k] == p,
    {
        proof {
            assert(it.seq().unref()[it.index()] == *c);
            assert(cells@.contains(*c));
        }
        let (x, y) = *c;
        r.insert((x as i32, y as i32));
        proof {
            let ghost old_done = done;
            done = done.insert(*c);
            assert forall|p: (u32, u32)|
                #[trigger] cells@.contains(p) implies done.contains(p) || exists|k: int|
                    it.index() + 1 <= k < it.seq().len() && *it.seq()[k] == p by {
                if !old_done.contains(p) && p != *c {
                    let k = choose|k: int| it.index() <= k < it.seq().len() && *it.seq()[k] == p;
                    assert(k != it.index());
                }
            }
            let f = |c: (u32, u32)| (c.0 as i32, c.1 as i32);
            assert forall|p: (i32, i32)| r@.contains(p) <==> signed_cells(done).contains(p) by {
                if p == f(*c) {
                    assert(done.contains(*c));
                } else if r@.contains(p) {
                    assert(signed_cells(old_done).contains(p));
                    let q = choose|q: (u32, u32)| old_done.contains(q) && f(q) == p;
                    assert(done.contains(q));
                } else if signed_cells(done).contains(p) {
                    let q = choose|q: (u32, u32)| done.contains(q) && f(q) == p;
                    assert(q != *c);
                    assert(old_done.contains(q));
                    assert(signed_cells(old_done).contains(p));
                }
            }
            assert(r@ =~= signed_cells(done));
        }
    }
    assert(done =~= cells@);
    r
}

} // verus!
