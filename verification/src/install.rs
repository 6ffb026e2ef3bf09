//! Starting to edit a freshly loaded map: the tile picked at first, and
//! the editor state reset around the new session.

use vstd::prelude::*;
use vstd::string::*;
use crate::document::{Document, LayerKind, LayerKindView, LayerView, TilesetView};
use crate::editor::{EditorState, EditorView};
use crate::history::EditorSession;

verus! {

/// The tileset a global tile id falls in: the last tileset, in order,
/// whose first id is at most `gid`, when `gid` is below its first id plus
/// its tile count.
pub open spec fn tileset_of(ts: Seq<TilesetView>, gid: u32) -> Option<int> {
    if exists|i: int| 0 <= i < ts.len() && ts[i].first_gid <= gid {
        let i = choose|i: int|
            0 <= i < ts.len() && ts[i].first_gid <= gid && forall|j: int|
                i < j < ts.len() ==> ts[j].first_gid > gid;
        if gid < ts[i].first_gid + ts[i].tile_count {
            Some(i)
        } else {
            None
        }
    } else {
        None
    }
}

/// A tile worth picking at first: not empty, and from a tileset other
/// than the one named "collision".
pub open spec fn pickable(ts: Seq<TilesetView>, gid: u32) -> bool {
    &&& gid != 0
    &&& tileset_of(ts, gid) matches Some(i) && ts[i].name != "collision"@
}

/// Tile `k` of layer `li` is pickable.
pub open spec fn pickable_at(doc: Seq<LayerView>, ts: Seq<TilesetView>, li: int, k: int) -> bool {
    0 <= li < doc.len() && match doc[li].kind {
        LayerKindView::Tile(t) => 0 <= k < t.tiles.len() && pickable(ts, t.tiles[k]),
        LayerKindView::Object(_) => false,
    }
}

/// Tile `a` comes before tile `b` when reading the layers in order and
/// each layer's tiles row by row.
pub open spec fn reads_before(a: (int, int), b: (int, int)) -> bool {
    a.0 < b.0 || (a.0 == b.0 && a.1 < b.1)
}

/// The first pickable tile used on the map, reading layer by layer.
pub open spec fn first_used_pickable(doc: Seq<LayerView>, ts: Seq<TilesetView>) -> Option<u32> {
    if exists|li: int, k: int| pickable_at(doc, ts, li, k) {
        let (li, k) = choose|li: int, k: int|
            pickable_at(doc, ts, li, k) && forall|lj: int, kj: int|
                reads_before((lj, kj), (li, k)) ==> !pickable_at(doc, ts, lj, kj);
        match doc[li].kind {
            LayerKindView::Tile(t) => Some(t.tiles[k]),
            LayerKindView::Object(_) => None,
        }
    } else {
        None
    }
}

/// The first id of the first tileset that is not "collision" and has more
/// than one tile; else of the first tileset; else 0.
pub open spec fn fallback_gid(ts: Seq<TilesetView>) -> u32 {
    if exists|i: int| 0 <= i < ts.len() && ts[i].name != "collision"@ && ts[i].tile_count > 1 {
        let i = choose|i: int|
            0 <= i < ts.len() && ts[i].name != "collision"@ && ts[i].tile_count > 1 && forall|j: int|
                0 <= j < i ==> !(ts[j].name != "collision"@ && ts[j].tile_count > 1);
        ts[i].first_gid
    } else if ts.len() > 0 {
        ts[0].first_gid
    } else {
        0
    }
}

/// The tile picked when a map is opened: the first pickable tile the map
/// uses, else the fallback.
pub open spec fn default_gid(doc: Seq<LayerView>, ts: Seq<TilesetView>) -> u32 {
    match first_used_pickable(doc, ts) {
        Some(g) => g,
        None => fallback_gid(ts),
    }
}

/// The tileset `gid` falls in.
fn tileset_index(tilesets: &Vec<crate::document::Tileset>, gid: u32) -> (r: Option<usize>)
    ensures
        match r {
            Some(i) => i < tilesets@.len() && tileset_of(tilesets@.map_values(|t: crate::document::Tileset| t@), gid) == Some(
                i as int,
            ),
            None => tileset_of(tilesets@.map_values(|t: crate::document::Tileset| t@), gid) is None,
        },
{
    let ghost ts = tilesets@.map_values(|t: crate::document::Tileset| t@);
    let mut best: Option<usize> = None;
    let mut i: usize = 0;
    while i < tilesets.len()
        invariant
            i <= tilesets@.len(),
            ts == tilesets@.map_values(|t: crate::document::Tileset| t@),
            match best {
                Some(b) => b < i && ts[b as int].first_gid <= gid && forall|j: int|
                    b < j < i ==> ts[j].first_gid > gid,
                None => forall|j: int| 0 <= j < i ==> ts[j].first_gid > gid,
            },
        decreases tilesets@.len() - i,
    {
        if tilesets[i].first_gid <= gid {
            best = Some(i);
        }
        i = i + 1;
    }
    match best {
        None => None,
        Some(b) => {
            proof {
                let c = choose|c: int|
                    0 <= c < ts.len() && ts[c].first_gid <= gid && forall|j: int|
                        c < j < ts.len() ==> ts[j].first_gid > gid;
                if c < b {
                    assert(ts[b as int].first_gid > gid);
                } else if b < c {
                    assert(ts[c].first_gid > gid);
                }
            }
            let t = &tilesets[b];
            if (gid as u64) < t.first_gid as u64 + t.tile_count as u64 {
                Some(b)
            } else {
                None
            }
        },
    }
}

/// A pickable tile with none before it is the first pickable tile used.
proof fn lemma_first_pickable(doc: Seq<LayerView>, ts: Seq<TilesetView>, li: int, k: int)
    requires
        pickable_at(doc, ts, li, k),
        forall|lj: int, kj: int| reads_before((lj, kj), (li, k)) ==> !pickable_at(doc, ts, lj, kj),
    ensures
        doc[li].kind matches LayerKindView::Tile(t) && default_gid(doc, ts) == t.tiles[k],
{
    let (l2, k2) = choose|l2: int, k2: int|
        pickable_at(doc, ts, l2, k2) && forall|lj: int, kj: int|
            reads_before((lj, kj), (l2, k2)) ==> !pickable_at(doc, ts, lj, kj);
    assert(!reads_before((l2, k2), (li, k)));
    assert(!reads_before((li, k), (l2, k2)));
}

/// The tile picked when a map is opened: the first tile the map uses that
/// is not empty and not from the "collision" tileset; failing that, the
/// first id of the first non-collision tileset with more than one tile,
/// of the first tileset, or 0.
pub fn default_selected_gid(document: &Document) -> (gid: u32)
    ensures
        gid == default_gid(document@, document.tileset_views()),
{
    let ghost doc = document@;
    let ghost ts = document.tileset_views();
    let collision = String::from_str("collision");
    let mut li: usize = 0;
    while li < document.layers.len()
        invariant
            li <= document.layers@.len(),
            doc == document@,
            ts == document.tileset_views(),
            collision@ == "collision"@,
            forall|lj: int, kj: int| lj < li ==> !pickable_at(doc, ts, lj, kj),
        decreases document.layers@.len() - li,
    {
        match &document.layers[li].kind {
            LayerKind::Tile(t) => {
                assert(doc[li as int].kind == LayerKindView::Tile(t@));
                let mut k: usize = 0;
                while k < t.tiles.len()
                    invariant
                        li < document.layers@.len(),
                        k <= t.tiles@.len(),
                        doc == document@,
                        ts == document.tileset_views(),
                        doc[li as int].kind == LayerKindView::Tile(t@),
                        collision@ == "collision"@,
                        forall|lj: int, kj: int|
                            reads_before((lj, kj), (li as int, k as int)) ==> !pickable_at(doc, ts, lj, kj),
                    decreases t.tiles@.len() - k,
                {
                    let gid = t.tiles[k];
                    if gid != 0 {
                        match tileset_index(&document.tilesets, gid) {
                            Some(i) => {
                                if !(document.tilesets[i].name == collision) {
                                    proof {
                                        assert(ts[i as int].name != "collision"@);
                                        assert(t@.tiles[k as int] == gid);
                                        assert(pickable(ts, gid));
                                        assert(pickable_at(doc, ts, li as int, k as int));
                                        lemma_first_pickable(doc, ts, li as int, k as int);
                                    }
                                    return gid;
                                }
                            },
                            None => {},
                        }
                    }
                    proof {
                        assert(!pickable_at(doc, ts, li as int, k as int));
                        assert forall|lj: int, kj: int|
                            reads_before((lj, kj), (li as int, k + 1)) implies !pickable_at(doc, ts, lj, kj) by {
                            if !(lj == li && kj == k) {
                                assert(reads_before((lj, kj), (li as int, k as int)));
                            }
                        }
                    }
                    k = k + 1;
                }
                proof {
                    assert forall|lj: int, kj: int| lj < li + 1 implies !pickable_at(doc, ts, lj, kj) by {
                        if lj == li {
                            if 0 <= kj < t.tiles@.len() {
                                assert(reads_before((lj, kj), (li as int, k as int)));
                            }
                        } else {
                            assert(reads_before((lj, kj), (li as int, k as int)));
                        }
                    }
                }
            },
            LayerKind::Object(_) => {
                proof {
                    assert(doc[li as int].kind is Object);
                    assert forall|lj: int, kj: int| lj < li + 1 implies !pickable_at(doc, ts, lj, kj) by {
                        if lj < li {
                        }
                    }
                }
            },
        }
        li = li + 1;
    }
    proof {
        assert(!exists|lj: int, kj: int| pickable_at(doc, ts, lj, kj)) by {
            assert forall|lj: int, kj: int| !pickable_at(doc, ts, lj, kj) by {
                if lj < li {
                }
            }
        }
    }
    fallback_selected_gid(&document.tilesets)
}

/// The fallback tile: the first id of the first tileset that is not
/// "collision" and has more than one tile, else of the first tileset,
/// else 0.
fn fallback_selected_gid(tilesets: &Vec<crate::document::Tileset>) -> (gid: u32)
    ensures
        gid == fallback_gid(tilesets@.map_values(|t: crate::document::Tileset| t@)),
{
    let ghost ts = tilesets@.map_values(|t: crate::document::Tileset| t@);
    let collision = String::from_str("collision");
    let mut i: usize = 0;
    while i < tilesets.len()
        invariant
            i <= tilesets@.len(),
            ts == tilesets@.map_values(|t: crate::document::Tileset| t@),
            collision@ == "collision"@,
            forall|j: int| 0 <= j < i ==> !(ts[j].name != "collision"@ && ts[j].tile_count > 1),
        decreases tilesets@.len() - i,
    {
        let t = &tilesets[i];
        if !(t.name == collision) && t.tile_count > 1 {
            proof {
                assert(ts[i as int].name != "collision"@ && ts[i as int].tile_count > 1);
                let c = choose|c: int|
                    0 <= c < ts.len() && ts[c].name != "collision"@ && ts[c].tile_count > 1 && forall|j: int|
                        0 <= j < c ==> !(ts[j].name != "collision"@ && ts[j].tile_count > 1);
                if c < i {
                } else if i < c {
                }
            }
            return t.first_gid;
        }
        i = i + 1;
    }
    if tilesets.len() > 0 {
        tilesets[0].first_gid
    } else {
        0
    }
}

impl EditorView {
    /// The state right after a freshly loaded session is installed with
    /// `gid` as the picked tile: the first layer is active, nothing is
    /// selected, previewed, floating or under a finger, the shared history
    /// is empty, the zoom is back to 100 % and everything is redrawn.
    pub open spec fn installed(self, session: crate::history::SessionView, gid: u32) -> EditorView {
        EditorView {
            session: Some(session),
            active_layer: 0,
            selected_gid: gid,
            selected_cell: None,
            selected_object: None,
            shape_fill_preview: None,
            selection: None,
            selection_cells: None,
            preview: None,
            preview_cells: None,
            closing: None,
            closing_cells: None,
            closing_started_at: None,
            last_tap_at: None,
            transfer: None,
            gesture: None,
            undo_order: Seq::empty(),
            redo_order: Seq::empty(),
            selection_undo: Seq::empty(),
            selection_redo: Seq::empty(),
            touch_edit_batch_active: false,
            zoom_percent: 100,
            canvas_dirty: true,
            tiles_dirty: true,
            ..self
        }
    }
}

impl EditorState {
    /// Starts editing a freshly loaded session, with the map's default
    /// tile picked.
    pub fn install_session(&mut self, session: EditorSession)
        requires
            session@.wf(),
        ensures
            final(self)@.wf(),
            final(self)@ == old(self)@.installed(
                session@,
                default_gid(session@.document, session.tilesets()),
            ),
    {
        let gid = default_selected_gid(session.document());
        self.active_layer = 0;
        self.selected_gid = gid;
        self.selected_cell = None;
        self.selected_object = None;
        self.shape_fill_preview = None;
        self.tile_selection = None;
        self.tile_selection_cells = None;
        self.tile_selection_preview = None;
        self.tile_selection_preview_cells = None;
        self.tile_selection_closing = None;
        self.tile_selection_closing_cells = None;
        self.tile_selection_closing_started_at = None;
        self.tile_selection_last_tap_at = None;
        self.tile_selection_transfer = None;
        self.single_touch_gesture = None;
        self.touch_edit_batch_active = false;
        self.zoom_percent = 100;
        self.canvas_dirty = true;
        self.tiles_dirty = true;
        self.undo_action_order = Vec::new();
        self.redo_action_order = Vec::new();
        self.selection_undo_stack = Vec::new();
        self.selection_redo_stack = Vec::new();
        self.session = Some(session);
        proof {
            assert(self@.undo_order =~= Seq::<crate::editor::UndoActionKind>::empty());
            assert(self@.redo_order =~= Seq::<crate::editor::UndoActionKind>::empty());
            assert(self@.selection_undo =~= Seq::<Option<Set<(i32, i32)>>>::empty());
            assert(self@.selection_redo =~= Seq::<Option<Set<(i32, i32)>>>::empty());
        }
    }
}

} // verus!
