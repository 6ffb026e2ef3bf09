//! Four-connected regions of equal tiles: the magic-wand selection and the
//! bucket fill.

use std::collections::BTreeSet;
use vstd::prelude::*;
use crate::layer::{EditorError, TileLayer, TileLayerView, lemma_layer_index, lemma_index_cell};

verus! {

broadcast use {vstd::std_specs::btree::group_btree_axioms, vstd::laws_cmp::group_laws_cmp};

/// Whether `c` lies inside the layer and holds `target`.
pub open spec fn cell_matches(t: TileLayerView, target: u32, c: (u32, u32)) -> bool {
    t.in_bounds(c.0 as int, c.1 as int) && t.tile(c.0 as int, c.1 as int) == target
}

/// Whether two cells share an edge.
pub open spec fn adjacent(a: (u32, u32), b: (u32, u32)) -> bool {
    ||| a.0 == b.0 && (a.1 + 1 == b.1 || b.1 + 1 == a.1)
    ||| a.1 == b.1 && (a.0 + 1 == b.0 || b.0 + 1 == a.0)
}

/// Index of a cell in the layer's storage.
pub open spec fn cell_index(t: TileLayerView, c: (u32, u32)) -> int {
    c.1 * t.width + c.0
}

/// The cell stored at index `i`.
pub open spec fn cell_at(t: TileLayerView, i: int) -> (u32, u32) {
    ((i % (t.width as int)) as u32, (i / (t.width as int)) as u32)
}

/// Matching cells reachable from `start` in at most `n` steps between
/// edge-sharing matching cells.
pub open spec fn reach_within(t: TileLayerView, target: u32, start: (u32, u32), n: nat) -> Set<
    (u32, u32),
>
    decreases n,
{
    if n == 0 {
        if cell_matches(t, target, start) {
            Set::empty().insert(start)
        } else {
            Set::empty()
        }
    } else {
        let prev = reach_within(t, target, start, (n - 1) as nat);
        prev.union(
            Set::new(
                |c: (u32, u32)|
                    cell_matches(t, target, c) && exists|p: (u32, u32)|
                        #[trigger] prev.contains(p) && adjacent(p, c),
            ),
        )
    }
}

/// The four-connected region of cells holding `target` that contains
/// `start`; empty when `start` does not hold `target` or lies outside.
pub open spec fn component(t: TileLayerView, target: u32, start: (u32, u32)) -> Set<(u32, u32)> {
    Set::new(|c: (u32, u32)| exists|n: nat| #[trigger] reach_within(t, target, start, n).contains(c))
}

/// A set that holds the start (when it matches) and every matching
/// neighbour of its members holds the whole region.
pub proof fn lemma_closed_holds_component(
    t: TileLayerView,
    target: u32,
    start: (u32, u32),
    r: Set<(u32, u32)>,
    n: nat,
)
    requires
        cell_matches(t, target, start) ==> r.contains(start),
        forall|p: (u32, u32), c: (u32, u32)|
            #[trigger] r.contains(p) && #[trigger] adjacent(p, c) && cell_matches(t, target, c)
                ==> r.contains(c),
    ensures
        reach_within(t, target, start, n).subset_of(r),
    decreases n,
{
    if n > 0 {
        lemma_closed_holds_component(t, target, start, r, (n - 1) as nat);
        let prev = reach_within(t, target, start, (n - 1) as nat);
        assert forall|c: (u32, u32)| reach_within(t, target, start, n).contains(c) implies r.contains(
            c,
        ) by {
            if !prev.contains(c) {
                let p = choose|p: (u32, u32)| #[trigger] prev.contains(p) && adjacent(p, c);
                assert(r.contains(p));
            }
        }
    }
}

/// Pushing keeps what a sequence holds and adds the new element.
proof fn lemma_push_keeps<T>(s: Seq<T>, v: T)
    ensures
        forall|d: T| s.contains(d) ==> s.push(v).contains(d),
        s.push(v).contains(v),
{
    assert(s.push(v)[s.len() as int] == v);
    assert forall|d: T| s.contains(d) implies s.push(v).contains(d) by {
        let k = choose|k: int| 0 <= k < s.len() && s[k] == d;
        assert(s.push(v)[k] == d);
    }
}

/// Every cell of a layer appears once in storage.
proof fn lemma_cell_roundtrip(t: TileLayerView, c: (u32, u32))
    requires
        t.wf(),
        t.in_bounds(c.0 as int, c.1 as int),
    ensures
        0 <= cell_index(t, c) < t.tiles.len(),
        cell_at(t, cell_index(t, c)) == c,
{
    lemma_layer_index(t, c.0 as int, c.1 as int);
}

/// Every cell inside the layer has a storage index, and reading the cell
/// back from it gives the cell.
proof fn lemma_cells_indexable(t: TileLayerView)
    requires
        t.wf(),
    ensures
        forall|c: (u32, u32)|
            t.in_bounds(c.0 as int, c.1 as int) ==> 0 <= #[trigger] cell_index(t, c) < t.tiles.len()
                && cell_at(t, cell_index(t, c)) == c,
{
    assert forall|c: (u32, u32)| t.in_bounds(c.0 as int, c.1 as int) implies 0 <= #[trigger] cell_index(
        t,
        c,
    ) < t.tiles.len() && cell_at(t, cell_index(t, c)) == c by {
        lemma_cell_roundtrip(t, c);
    }
}

/// The magic-wand selection: the four-connected region of cells holding
/// `target_gid` that contains `(x, y)`.
pub fn magic_wand_cells(layer: &TileLayer, x: u32, y: u32, target_gid: u32) -> (cells: BTreeSet<
    (u32, u32),
>)
    requires
        layer@.wf(),
    ensures
        cells@ == component(layer@, target_gid, (x, y)),
{
    let ghost t = layer@;
    let ghost start = (x, y);
    let n = layer.tiles.len();
    let mut visited: Vec<bool> = Vec::new();
    while visited.len() < n
        invariant
            visited@.len() <= n,
            forall|i: int| 0 <= i < visited@.len() ==> !#[trigger] visited@[i],
        decreases n - visited.len(),
    {
        visited.push(false);
    }
    let mut result: BTreeSet<(u32, u32)> = BTreeSet::new();
    let mut stack: Vec<(u32, u32)> = Vec::new();
    stack.push((x, y));
    let ghost mut marked: Set<int> = Set::empty();
    proof {
        vstd::set_lib::lemma_int_range(0, n as int);
        assert(stack@[0] == start);
    }
    let ghost mut parents: Seq<(u32, u32)> = seq![start];
    while stack.len() > 0
        invariant
            t == layer@,
            start == (x, y),
            t.wf(),
            n == t.tiles.len(),
            visited@.len() == n,
            marked.finite(),
            marked.subset_of(vstd::set_lib::set_int_range(0, n as int)),
            vstd::set_lib::set_int_range(0, n as int).len() == n,
            vstd::set_lib::set_int_range(0, n as int).finite(),
            forall|i: int| 0 <= i < n ==> (#[trigger] visited@[i] <==> marked.contains(i)),
            forall|c: (u32, u32)|
                #[trigger] result@.contains(c) ==> cell_matches(t, target_gid, c)
                    && visited@[cell_index(t, c)],
            forall|i: int|
                0 <= i < n && #[trigger] visited@[i] && t.tiles[i] == target_gid
                    ==> result@.contains(cell_at(t, i)),
            forall|p: (u32, u32), c: (u32, u32)|
                #[trigger] result@.contains(p) && #[trigger] adjacent(p, c) && t.in_bounds(
                    c.0 as int,
                    c.1 as int,
                ) ==> visited@[cell_index(t, c)] || stack@.contains(c),
            t.in_bounds(x as int, y as int) ==> visited@[cell_index(t, start)] || stack@.contains(
                start,
            ),
            parents.len() == stack@.len(),
            forall|k: int|
                0 <= k < stack@.len() ==> #[trigger] stack@[k] == start || (t.in_bounds(
                    stack@[k].0 as int,
                    stack@[k].1 as int,
                ) && result@.contains(parents[k]) && adjacent(parents[k], stack@[k])),
            forall|c: (u32, u32)|
                #[trigger] result@.contains(c) ==> component(t, target_gid, start).contains(c),
        decreases 4 * (n - marked.len()) + stack.len(),
    {
        proof {
            vstd::set_lib::lemma_len_subset(marked, vstd::set_lib::set_int_range(0, n as int));
            lemma_cells_indexable(t);
        }
        let ghost before = stack@;
        let ghost before_parents = parents;
        let ghost vis0 = visited@;
        let ghost marked0 = marked;
        let ghost old_result = result@;
        let popped = stack.pop();
        let (cx, cy) = match popped {
            Some(c) => c,
            None => (0, 0),
        };
        let ghost c = (cx, cy);
        proof {
            parents = parents.drop_last();
            assert(c == before.last());
            assert(stack@ == before.drop_last());
            assert(before[before.len() - 1] == c);
            assert forall|d: (u32, u32)| before.contains(d) && d != c implies stack@.contains(d) by {
                let k = choose|k: int| 0 <= k < before.len() && before[k] == d;
                assert(k < before.len() - 1);
                assert(stack@[k] == d);
            }
        }
        match layer.index_of(cx, cy) {
            None => {},
            Some(idx) => {
                if !visited[idx] {
                    let ghost old_visited = visited@;
                    visited.set(idx, true);
                    proof {
                        lemma_cell_roundtrip(t, c);
                        assert(!marked.contains(idx as int));
                        marked = marked.insert(idx as int);
                        assert(marked.len() == marked0.len() + 1);
                        vstd::set_lib::lemma_len_subset(marked, vstd::set_lib::set_int_range(0, n as int));
                    }
                    if layer.tiles[idx] == target_gid {
                        proof {
                            // The new cell is in the region.
                            if c == start {
                                assert(reach_within(t, target_gid, start, 0).contains(c));
                            } else {
                                let k = before.len() - 1;
                                assert(before[k] == c);
                                let p = before_parents[k];
                                assert(old_result.contains(p) && adjacent(p, c));
                                assert(component(t, target_gid, start).contains(p));
                                let m = choose|m: nat| #[trigger] reach_within(t, target_gid, start, m).contains(p);
                                assert(reach_within(t, target_gid, start, m + 1).contains(c));
                            }
                        }
                        result.insert((cx, cy));
                        let ghost mid_stack = stack@;
                        if cx > 0 {
                            let ghost s0 = stack@;
                            stack.push((cx - 1, cy));
                            proof {
                                lemma_push_keeps(s0, ((cx - 1) as u32, cy));
                                parents = parents.push(c);
                            }
                        }
                        let ghost s1 = stack@;
                        if cx + 1 < layer.width {
                            stack.push((cx + 1, cy));
                            proof {
                                lemma_push_keeps(s1, ((cx + 1) as u32, cy));
                                parents = parents.push(c);
                            }
                        }
                        let ghost s2 = stack@;
                        if cy > 0 {
                            stack.push((cx, cy - 1));
                            proof {
                                lemma_push_keeps(s2, (cx, (cy - 1) as u32));
                                parents = parents.push(c);
                            }
                        }
                        let ghost s3 = stack@;
                        if cy + 1 < layer.height {
                            stack.push((cx, cy + 1));
                            proof {
                                lemma_push_keeps(s3, (cx, (cy + 1) as u32));
                                parents = parents.push(c);
                            }
                        }
                        proof {
                            assert(forall|d: (u32, u32)| mid_stack.contains(d) ==> stack@.contains(d));
                            assert forall|e: (u32, u32)| adjacent(c, e) && t.in_bounds(e.0 as int, e.1 as int) implies
                                stack@.contains(e) by {
                                if e.0 + 1 == cx && e.1 == cy {
                                    assert(e == ((cx - 1) as u32, cy));
                                } else if e.0 == cx + 1 && e.1 == cy {
                                    assert(e == ((cx + 1) as u32, cy));
                                } else if e.1 + 1 == cy && e.0 == cx {
                                    assert(e == (cx, (cy - 1) as u32));
                                } else {
                                    assert(e == (cx, (cy + 1) as u32));
                                }
                            }
                            assert forall|k: int| 0 <= k < stack@.len() implies #[trigger] stack@[k] == start || (t.in_bounds(
                                stack@[k].0 as int,
                                stack@[k].1 as int,
                            ) && result@.contains(parents[k]) && adjacent(parents[k], stack@[k])) by {
                                if k < mid_stack.len() {
                                    assert(stack@[k] == before[k]);
                                    assert(parents[k] == before_parents[k]);
                                }
                            }
                        }
                    }
                }
            },
        }
        proof {
            assert forall|k: int| 0 <= k < stack@.len() implies #[trigger] stack@[k] == start || (t.in_bounds(
                stack@[k].0 as int,
                stack@[k].1 as int,
            ) && result@.contains(parents[k]) && adjacent(parents[k], stack@[k])) by {
                if k < before.len() - 1 && stack@[k] == before[k] && parents[k] == before_parents[k] {
                    assert(old_result.contains(before_parents[k]) ==> result@.contains(before_parents[k]));
                }
            }
            assert(forall|i: int| 0 <= i < n && vis0[i] ==> visited@[i]);
            if t.in_bounds(x as int, y as int) && !visited@[cell_index(t, start)] {
                assert(!vis0[cell_index(t, start)]);
                assert(before.contains(start));
                if c == start {
                    assert(visited@[cell_index(t, c)]);
                }
                assert(start != c);
            }
        }
    }
    proof {
        let r = result@;
        assert forall|p: (u32, u32), d: (u32, u32)|
            #[trigger] r.contains(p) && #[trigger] adjacent(p, d) && cell_matches(t, target_gid, d) implies r.contains(d) by {
            lemma_cell_roundtrip(t, d);
        }
        if cell_matches(t, target_gid, start) {
            lemma_cell_roundtrip(t, start);
        }
        assert forall|d: (u32, u32)| component(t, target_gid, start).contains(d) implies r.contains(d) by {
            let m = choose|m: nat| #[trigger] reach_within(t, target_gid, start, m).contains(d);
            lemma_closed_holds_component(t, target_gid, start, r, m);
        }
        assert(r =~= component(t, target_gid, start));
    }
    result
}

/// The tiles after a bucket fill at `start`: every cell of the region of
/// `start`'s tile that contains `start` holds `replacement`.
pub open spec fn filled(t: TileLayerView, start: (u32, u32), replacement: u32) -> Seq<u32> {
    let target = t.tile(start.0 as int, start.1 as int);
    Seq::new(
        t.tiles.len(),
        |i: int|
            if component(t, target, start).contains(cell_at(t, i)) {
                replacement
            } else {
                t.tiles[i]
            },
    )
}

/// Bucket fill: gives the four-connected region of equal tiles around
/// `(x, y)` the tile `replacement`. Refuses a start outside the layer.
pub fn flood_fill(layer: &mut TileLayer, x: u32, y: u32, replacement: u32) -> (r: Result<(), EditorError>)
    requires
        old(layer)@.wf(),
    ensures
        final(layer)@.wf(),
        final(layer).width == old(layer).width,
        final(layer).height == old(layer).height,
        match r {
            Ok(()) => old(layer)@.in_bounds(x as int, y as int) && final(layer)@.tiles == filled(
                old(layer)@,
                (x, y),
                replacement,
            ),
            Err(e) => !old(layer)@.in_bounds(x as int, y as int) && e == EditorError::OutOfBounds(x, y)
                && final(layer)@ == old(layer)@,
        },
{
    let ghost t = layer@;
    let target = match layer.tile_at(x, y) {
        Some(g) => g,
        None => {
            return Err(EditorError::OutOfBounds(x, y));
        },
    };
    if target == replacement {
        proof {
            assert forall|i: int| 0 <= i < t.tiles.len() implies filled(t, (x, y), replacement)[i] == t.tiles[i] by {
                if component(t, target, (x, y)).contains(cell_at(t, i)) {
                    let m = choose|m: nat| #[trigger] reach_within(t, target, (x, y), m).contains(cell_at(t, i));
                    lemma_reach_matches(t, target, (x, y), m);
                    lemma_index_cell(t, i);
                }
            }
            assert(filled(t, (x, y), replacement) =~= t.tiles);
        }
        return Ok(());
    }
    let cells = magic_wand_cells(layer, x, y, target);
    paint_cells(layer, &cells, replacement);
    assert(layer@.tiles =~= filled(t, (x, y), replacement));
    Ok(())
}

/// The tiles after giving every listed cell the tile `gid`.
pub open spec fn painted_cells(t: TileLayerView, cells: Set<(u32, u32)>, gid: u32) -> Seq<u32> {
    Seq::new(t.tiles.len(), |i: int| if cells.contains(cell_at(t, i)) { gid } else { t.tiles[i] })
}

/// Gives every listed cell inside the layer the tile `gid`.
pub fn paint_cells(layer: &mut TileLayer, cells: &BTreeSet<(u32, u32)>, gid: u32)
    requires
        old(layer)@.wf(),
    ensures
        final(layer)@.wf(),
        final(layer).width == old(layer).width,
        final(layer).height == old(layer).height,
        final(layer)@.tiles == painted_cells(old(layer)@, cells@, gid),
{
    let ghost t = layer@;
    let n = layer.tiles.len();
    let mut i: usize = 0;
    let mut cx: u32 = 0;
    let mut cy: u32 = 0;
    proof {
        if n > 0 {
            lemma_index_cell(t, 0);
            vstd::arithmetic::div_mod::lemma_small_mod(0, t.width as nat);
            vstd::arithmetic::div_mod::lemma_basic_div(0, t.width as int);
        }
    }
    while i < n
        invariant
            t.wf(),
            n == t.tiles.len(),
            layer.width == t.width,
            layer.height == t.height,
            layer@.tiles.len() == n,
            i <= n,
            i < n ==> (cx as int) == (i as int) % (t.width as int) && (cy as int) == (i as int) / (t.width as int),
            i < n ==> cx < t.width,
            forall|k: int|
                0 <= k < n ==> #[trigger] layer@.tiles[k] == (if k < i && cells@.contains(cell_at(t, k)) {
                    gid
                } else {
                    t.tiles[k]
                }),
        decreases n - i,
    {
        proof {
            lemma_index_cell(t, i as int);
        }
        if cells.contains(&(cx, cy)) {
            layer.tiles.set(i, gid);
        }
        proof {
            assert(cell_at(t, i as int) == (cx, cy));
        }
        i = i + 1;
        if cx + 1 < layer.width {
            cx = cx + 1;
        } else {
            cx = 0;
            if i < n {
                cy = cy + 1;
            }
        }
        proof {
            if i < n {
                lemma_index_cell(t, i as int);
                lemma_index_cell(t, (i - 1) as int);
                lemma_step_cell(t.width as int, (i - 1) as int);
            }
        }
    }
    assert(layer@.tiles =~= painted_cells(t, cells@, gid));
}

/// Moving to the next storage index moves one cell right, or to the start
/// of the next row.
proof fn lemma_step_cell(w: int, i: int)
    requires
        w > 0,
        i >= 0,
    ensures
        (i + 1) % w == (if i % w + 1 < w { i % w + 1 } else { 0 }),
        (i + 1) / w == (if i % w + 1 < w { i / w } else { i / w + 1 }),
{
    vstd::arithmetic::div_mod::lemma_fundamental_div_mod(i, w);
    vstd::arithmetic::div_mod::lemma_mod_bound(i, w);
    if i % w + 1 < w {
        assert(i + 1 == (i / w) * w + (i % w + 1)) by (nonlinear_arith)
            requires
                i == w * (i / w) + i % w,
        ;
        vstd::arithmetic::div_mod::lemma_fundamental_div_mod_converse(i + 1, w, i / w, i % w + 1);
    } else {
        assert(i + 1 == (i / w + 1) * w + 0) by (nonlinear_arith)
            requires
                i == w * (i / w) + i % w,
                i % w + 1 == w,
        ;
        vstd::arithmetic::div_mod::lemma_fundamental_div_mod_converse(i + 1, w, i / w + 1, 0);
    }
}

/// Every cell the region reaches holds the target tile.
pub proof fn lemma_reach_matches(t: TileLayerView, target: u32, start: (u32, u32), n: nat)
    ensures
        forall|c: (u32, u32)| #[trigger] reach_within(t, target, start, n).contains(c) ==> cell_matches(t, target, c),
    decreases n,
{
    if n > 0 {
        lemma_reach_matches(t, target, start, (n - 1) as nat);
        let prev = reach_within(t, target, start, (n - 1) as nat);
        assert forall|c: (u32, u32)| #[trigger] reach_within(t, target, start, n).contains(c) implies cell_matches(
            t,
            target,
            c,
        ) by {
            if !prev.contains(c) {
            }
        }
    } else {
        assert forall|c: (u32, u32)| #[trigger] reach_within(t, target, start, n).contains(c) implies cell_matches(
            t,
            target,
            c,
        ) by {
            if cell_matches(t, target, start) {
                assert(Set::empty().insert(start).contains(c) ==> c == start);
            }
        }
    }
}

/// Every cell of the layer holding `target`.
pub open spec fn matching_cells(t: TileLayerView, target: u32) -> Set<(u32, u32)> {
    Set::new(|c: (u32, u32)| cell_matches(t, target, c))
}

/// Every cell of the layer holding `target`.
pub fn same_tile_cells(layer: &TileLayer, target: u32) -> (cells: BTreeSet<(u32, u32)>)
    requires
        layer@.wf(),
    ensures
        cells@ == matching_cells(layer@, target),
{
    let ghost t = layer@;
    let mut cells: BTreeSet<(u32, u32)> = BTreeSet::new();
    let mut row: u32 = 0;
    while row < layer.height
        invariant
            t == layer@,
            t.wf(),
            row <= t.height,
            cells@ == Set::new(
                |p: (u32, u32)| p.0 < t.width && p.1 < row && t.tile(p.0 as int, p.1 as int) == target,
            ),
        decreases t.height - row,
    {
        let mut col: u32 = 0;
        while col < layer.width
            invariant
                t == layer@,
                t.wf(),
                row < t.height,
                col <= t.width,
                cells@ == Set::new(
                    |p: (u32, u32)|
                        ((p.0 < t.width && p.1 < row) || (p.1 == row && p.0 < col)) && t.tile(
                            p.0 as int,
                            p.1 as int,
                        ) == target,
                ),
            decreases t.width - col,
        {
            if layer.tile_at(col, row) == Some(target) {
                cells.insert((col, row));
            }
            col = col + 1;
        }
        row = row + 1;
    }
    assert(cells@ =~= matching_cells(t, target));
    cells
}

} // verus!
