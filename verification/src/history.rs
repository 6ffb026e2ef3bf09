//! An editing session: the document together with its undo and redo
//! history, where a batch groups several edits into one undo step.

use std::collections::BTreeSet;
use vstd::prelude::*;
use crate::document::{Document, LayerKind, MapFrame, LayerKindView, LayerView, TilesetView, doc_wf, tile_layer_status, tile_view, with_tiles};
use crate::flood::{filled, flood_fill, paint_cells, painted_cells};
use crate::grid::{GridTransform, lemma_grid_cell, mask_at, transform_dims, transform_seq, transform_tiles};
use crate::layer::{
    EditorError, TileLayerView, capture_region_clipped, clear_region_tiles_masked, lemma_layer_index,
    write_region_tiles_clipped,
};

verus! {

broadcast use {vstd::std_specs::btree::group_btree_axioms, vstd::laws_cmp::group_laws_cmp};

/// A document with its edit history.
#[derive(Debug)]
pub struct EditorSession {
    pub document: Document,
    undo_stack: Vec<Document>,
    redo_stack: Vec<Document>,
    batch_active: bool,
    batch_recorded: bool,
}

/// The mathematical content of a session.
pub struct SessionView {
    pub document: Seq<LayerView>,
    /// The size and tilesets of the document being edited.
    pub map: MapFrame,
    /// Earlier documents, most recent last.
    pub undo: Seq<Seq<LayerView>>,
    /// The size and tilesets of each earlier document.
    pub undo_maps: Seq<MapFrame>,
    /// Undone documents, most recently undone last.
    pub redo: Seq<Seq<LayerView>>,
    /// The size and tilesets of each undone document.
    pub redo_maps: Seq<MapFrame>,
    /// A batch is open.
    pub batch_active: bool,
    /// The open batch has already recorded its undo step.
    pub batch_recorded: bool,
}

impl View for EditorSession {
    type V = SessionView;

    closed spec fn view(&self) -> SessionView {
        SessionView {
            document: self.document@,
            map: self.document.frame(),
            undo: self.undo_stack@.map_values(|d: Document| d@),
            undo_maps: self.undo_stack@.map_values(|d: Document| d.frame()),
            redo: self.redo_stack@.map_values(|d: Document| d@),
            redo_maps: self.redo_stack@.map_values(|d: Document| d.frame()),
            batch_active: self.batch_active,
            batch_recorded: self.batch_recorded,
        }
    }
}

impl SessionView {
    /// Every document the session holds is well formed, and all of them
    /// share the map's size and tilesets.
    pub open spec fn wf(self) -> bool {
        &&& doc_wf(self.document)
        &&& forall|i: int| 0 <= i < self.undo.len() ==> doc_wf(#[trigger] self.undo[i])
        &&& forall|i: int| 0 <= i < self.redo.len() ==> doc_wf(#[trigger] self.redo[i])
        &&& self.batch_recorded ==> self.batch_active && self.undo.len() > 0
        &&& self.undo_maps.len() == self.undo.len()
        &&& self.redo_maps.len() == self.redo.len()
        &&& forall|i: int| 0 <= i < self.undo_maps.len() ==> #[trigger] self.undo_maps[i] == self.map
        &&& forall|i: int| 0 <= i < self.redo_maps.len() ==> #[trigger] self.redo_maps[i] == self.map
    }

    /// The session after opening a batch.
    pub open spec fn begun(self) -> SessionView {
        if self.batch_active {
            self
        } else {
            SessionView { batch_active: true, batch_recorded: false, ..self }
        }
    }

    /// Whether finishing the batch now reports a recorded undo step.
    pub open spec fn finish_recorded(self) -> bool {
        self.batch_active && self.batch_recorded
    }

    /// The session after closing the batch and keeping its undo step.
    pub open spec fn finished(self) -> SessionView {
        SessionView { batch_active: false, batch_recorded: false, ..self }
    }

    /// The session after closing the batch and dropping its undo step.
    pub open spec fn aborted(self) -> SessionView {
        SessionView {
            undo: if self.batch_active && self.batch_recorded {
                self.undo.drop_last()
            } else {
                self.undo
            },
            undo_maps: if self.batch_active && self.batch_recorded {
                self.undo_maps.drop_last()
            } else {
                self.undo_maps
            },
            batch_active: false,
            batch_recorded: false,
            ..self
        }
    }

    /// The session after stepping back one undo step.
    pub open spec fn undone(self) -> SessionView {
        SessionView {
            document: self.undo.last(),
            map: self.undo_maps.last(),
            undo: self.undo.drop_last(),
            undo_maps: self.undo_maps.drop_last(),
            redo: self.redo.push(self.document),
            redo_maps: self.redo_maps.push(self.map),
            batch_active: false,
            batch_recorded: false,
        }
    }

    /// The session after stepping forward one redo step.
    pub open spec fn redone(self) -> SessionView {
        SessionView {
            document: self.redo.last(),
            map: self.redo_maps.last(),
            undo: self.undo.push(self.document),
            undo_maps: self.undo_maps.push(self.map),
            redo: self.redo.drop_last(),
            redo_maps: self.redo_maps.drop_last(),
            batch_active: false,
            batch_recorded: false,
        }
    }

    /// The history after an edit that turns the document into `next`:
    /// outside a batch the old document becomes an undo step; inside a
    /// batch only the first edit records one, holding the document as it
    /// was when the batch began.
    pub open spec fn after_edit(self, next: Seq<LayerView>) -> SessionView {
        if self.batch_active && self.batch_recorded {
            SessionView { document: next, ..self }
        } else {
            SessionView {
                document: next,
                undo: self.undo.push(self.document),
                undo_maps: self.undo_maps.push(self.map),
                redo: Seq::empty(),
                redo_maps: Seq::empty(),
                batch_recorded: self.batch_active,
                ..self
            }
        }
    }
}

/// How a session changes under a tile edit of layer `i` whose outcome is
/// `out`: a refused edit leaves everything as it was; an accepted one puts
/// the new tiles into the document and records the undo step.
pub open spec fn applied(
    old: SessionView,
    i: int,
    out: Result<TileLayerView, EditorError>,
    r: Result<(), EditorError>,
    new: SessionView,
) -> bool {
    match out {
        Ok(t) => r == Ok::<(), EditorError>(()) && new == old.after_edit(with_tiles(old.document, i, t)),
        Err(e) => r == Err::<(), EditorError>(e) && new == old,
    }
}

/// Outcome of putting `gid` at `(x, y)` on layer `i`.
pub open spec fn set_tile_outcome(doc: Seq<LayerView>, i: int, x: u32, y: u32, gid: u32) -> Result<
    TileLayerView,
    EditorError,
> {
    match tile_layer_status(doc, i) {
        Err(e) => Err(e),
        Ok(()) => {
            let t = tile_view(doc, i);
            if t.in_bounds(x as int, y as int) {
                Ok(t.with_tile(x as int, y as int, gid))
            } else {
                Err(EditorError::OutOfBounds(x, y))
            }
        },
    }
}

/// Outcome of a bucket fill at `(x, y)` with `gid` on layer `i`.
pub open spec fn fill_outcome(doc: Seq<LayerView>, i: int, x: u32, y: u32, gid: u32) -> Result<
    TileLayerView,
    EditorError,
> {
    match tile_layer_status(doc, i) {
        Err(e) => Err(e),
        Ok(()) => {
            let t = tile_view(doc, i);
            if t.in_bounds(x as int, y as int) {
                Ok(TileLayerView { tiles: filled(t, (x, y), gid), ..t })
            } else {
                Err(EditorError::OutOfBounds(x, y))
            }
        },
    }
}

/// Outcome of writing `src` at `(min_x, min_y)` on layer `i`.
pub open spec fn write_outcome(
    doc: Seq<LayerView>,
    i: int,
    min_x: int,
    min_y: int,
    w: int,
    h: int,
    src: Seq<u32>,
    mask: Option<Seq<bool>>,
) -> Result<TileLayerView, EditorError> {
    match tile_layer_status(doc, i) {
        Err(e) => Err(e),
        Ok(()) => {
            let t = tile_view(doc, i);
            Ok(TileLayerView { tiles: t.written(min_x, min_y, w, h, src, mask), ..t })
        },
    }
}

/// Outcome of emptying the masked cells at `(min_x, min_y)` on layer `i`.
pub open spec fn clear_outcome(
    doc: Seq<LayerView>,
    i: int,
    min_x: int,
    min_y: int,
    w: int,
    h: int,
    mask: Seq<bool>,
) -> Result<TileLayerView, EditorError> {
    match tile_layer_status(doc, i) {
        Err(e) => Err(e),
        Ok(()) => {
            let t = tile_view(doc, i);
            Ok(TileLayerView { tiles: t.cleared(min_x, min_y, w, h, mask), ..t })
        },
    }
}

/// Outcome of turning over the masked cells of the `w`×`h` rectangle at
/// `(min_x, min_y)` on layer `i`: the rectangle is read, the masked cells
/// are emptied, and the transformed rectangle is written back at the same
/// corner through `next_mask`.
pub open spec fn transform_outcome(
    doc: Seq<LayerView>,
    i: int,
    min_x: int,
    min_y: int,
    w: u32,
    h: u32,
    mask: Seq<bool>,
    next_mask: Seq<bool>,
    kind: GridTransform,
) -> Result<TileLayerView, EditorError> {
    match tile_layer_status(doc, i) {
        Err(e) => Err(e),
        Ok(()) => {
            let t = tile_view(doc, i);
            let moved = transform_seq(kind, w as int, h as int, t.capture(min_x, min_y, w as int, h as int));
            let t1 = TileLayerView { tiles: t.cleared(min_x, min_y, w as int, h as int, mask), ..t };
            let (nw, nh) = transform_dims(kind, w, h);
            Ok(TileLayerView { tiles: t1.written(min_x, min_y, nw as int, nh as int, moved, Some(next_mask)), ..t })
        },
    }
}

/// A tile layer with every listed cell holding `gid`.
pub open spec fn cells_painted(t: TileLayerView, cells: Set<(u32, u32)>, gid: u32) -> TileLayerView {
    TileLayerView { tiles: painted_cells(t, cells, gid), ..t }
}

impl EditorSession {
    /// A session over a freshly loaded document, with no history.
    pub fn new(document: Document) -> (s: EditorSession)
        requires
            doc_wf(document@),
        ensures
            s@.wf(),
            s@.document == document@,
            s@.undo.len() == 0,
            s@.redo.len() == 0,
            !s@.batch_active,
            !s@.batch_recorded,
    {
        let s = EditorSession {
            document,
            undo_stack: Vec::new(),
            redo_stack: Vec::new(),
            batch_active: false,
            batch_recorded: false,
        };
        assert(s@.undo =~= Seq::empty());
        assert(s@.redo =~= Seq::empty());
        s
    }

    /// The tilesets of the document being edited.
    pub open spec fn tilesets(&self) -> Seq<TilesetView> {
        self@.map.tilesets
    }

    /// The size of the map being edited, in tiles.
    pub open spec fn map_size(&self) -> (u32, u32) {
        (self@.map.width, self@.map.height)
    }

    /// The document being edited.
    pub fn document(&self) -> (d: &Document)
        ensures
            d@ == self@.document,
            d.tileset_views() == self.tilesets(),
            (d.width, d.height) == self.map_size(),
    {
        &self.document
    }

    /// Records the undo step for an edit that is about to happen.
    fn record_edit(&mut self)
        requires
            old(self)@.wf(),
        ensures
            final(self)@ == old(self)@.after_edit(old(self)@.document),
            final(self)@.wf(),
            final(self).tilesets() == old(self).tilesets(),
            final(self).map_size() == old(self).map_size(),
    {
        if self.batch_active && self.batch_recorded {
            return;
        }
        let ghost before = self@;
        let snapshot = self.document.duplicate();
        self.undo_stack.push(snapshot);
        self.redo_stack = Vec::new();
        if self.batch_active {
            self.batch_recorded = true;
        }
        assert(self@.undo =~= before.undo.push(before.document));
        assert(self@.undo_maps =~= before.undo_maps.push(before.map));
        assert(self@.redo =~= Seq::<Seq<LayerView>>::empty());
        assert(self@.redo_maps =~= Seq::<MapFrame>::empty());
    }

    /// Opens a batch: the edits until it is finished form one undo step.
    /// A batch already open stays as it is.
    pub fn begin_history_batch(&mut self)
        requires
            old(self)@.wf(),
        ensures
            final(self)@.wf(),
            final(self)@ == old(self)@.begun(),
    {
        let ghost before = self@;
        if !self.batch_active {
            self.batch_active = true;
            self.batch_recorded = false;
        }
        assert(self@.undo == before.undo);
        assert(self@.redo == before.redo);
        assert(self@.document == before.document);
        assert(doc_wf(self@.document));
    }

    /// Closes the open batch and tells whether it recorded an undo step.
    pub fn finish_history_batch(&mut self) -> (recorded: bool)
        requires
            old(self)@.wf(),
        ensures
            final(self)@.wf(),
            recorded == old(self)@.finish_recorded(),
            final(self)@ == old(self)@.finished(),
    {
        let ghost before = self@;
        let recorded = self.batch_active && self.batch_recorded;
        self.batch_active = false;
        self.batch_recorded = false;
        assert(self@.undo == before.undo);
        assert(self@.redo == before.redo);
        recorded
    }

    /// Closes the open batch and drops the undo step it recorded; the
    /// document keeps the batch's edits.
    pub fn abort_history_batch(&mut self)
        requires
            old(self)@.wf(),
        ensures
            final(self)@.wf(),
            final(self)@ == old(self)@.aborted(),
    {
        let ghost before = self@;
        let dropping = self.batch_active && self.batch_recorded;
        if dropping {
            let _ = self.undo_stack.pop();
        }
        self.batch_active = false;
        self.batch_recorded = false;
        proof {
            if dropping {
                assert(self@.undo =~= before.undo.drop_last());
                assert(self@.undo_maps =~= before.undo_maps.drop_last());
            } else {
                assert(self@.undo =~= before.undo);
                assert(self@.undo_maps =~= before.undo_maps);
            }
            assert forall|i: int| 0 <= i < self@.undo_maps.len() implies #[trigger] self@.undo_maps[i]
                == self@.map by {
                assert(self@.undo_maps[i] == before.undo_maps[i]);
            }
            assert(self@.redo_maps == before.redo_maps);
            assert forall|i: int| 0 <= i < self@.undo.len() implies doc_wf(#[trigger] self@.undo[i]) by {
                assert(self@.undo[i] == before.undo[i]);
            }
            assert(self@.redo == before.redo);
            assert(self@.document == before.document);
        }
    }

    /// Steps back to the previous document; false when there is none.
    /// Closes any open batch.
    pub fn undo(&mut self) -> (changed: bool)
        requires
            old(self)@.wf(),
        ensures
            final(self)@.wf(),
            changed == (old(self)@.undo.len() > 0),
            changed ==> final(self)@ == old(self)@.undone(),
            !changed ==> final(self)@ == old(self)@,
            final(self).tilesets() == old(self).tilesets(),
            final(self).map_size() == old(self).map_size(),
    {
        let ghost before = self@;
        match self.undo_stack.pop() {
            Some(prev) => {
                let mut prev = prev;
                std::mem::swap(&mut self.document, &mut prev);
                self.redo_stack.push(prev);
                self.batch_active = false;
                self.batch_recorded = false;
                assert(self@.undo =~= before.undo.drop_last());
                assert(self@.undo_maps =~= before.undo_maps.drop_last());
                assert(self@.redo =~= before.redo.push(before.document));
                assert(self@.redo_maps =~= before.redo_maps.push(before.map));
                assert(self@.map == before.undo_maps[before.undo_maps.len() - 1]);
                assert(self@.document == before.undo[before.undo.len() - 1]);
                assert(doc_wf(before.undo[before.undo.len() - 1]));
                assert(forall|i: int| 0 <= i < self@.undo.len() ==> self@.undo[i] == before.undo[i]);
                assert(forall|i: int|
                    0 <= i < before.redo.len() ==> self@.redo[i] == before.redo[i]);
                assert(self@.redo[before.redo.len() as int] == before.document);
                true
            },
            None => false,
        }
    }

    /// Steps forward to the most recently undone document; false when
    /// there is none. Closes any open batch.
    pub fn redo(&mut self) -> (changed: bool)
        requires
            old(self)@.wf(),
        ensures
            final(self)@.wf(),
            changed == (old(self)@.redo.len() > 0),
            changed ==> final(self)@ == old(self)@.redone(),
            !changed ==> final(self)@ == old(self)@,
            final(self).tilesets() == old(self).tilesets(),
            final(self).map_size() == old(self).map_size(),
    {
        let ghost before = self@;
        match self.redo_stack.pop() {
            Some(next) => {
                let mut next = next;
                std::mem::swap(&mut self.document, &mut next);
                self.undo_stack.push(next);
                self.batch_active = false;
                self.batch_recorded = false;
                assert(self@.redo =~= before.redo.drop_last());
                assert(self@.redo_maps =~= before.redo_maps.drop_last());
                assert(self@.undo =~= before.undo.push(before.document));
                assert(self@.undo_maps =~= before.undo_maps.push(before.map));
                assert(self@.map == before.redo_maps[before.redo_maps.len() - 1]);
                assert(self@.document == before.redo[before.redo.len() - 1]);
                assert(doc_wf(before.redo[before.redo.len() - 1]));
                assert(forall|i: int| 0 <= i < self@.redo.len() ==> self@.redo[i] == before.redo[i]);
                assert(forall|i: int|
                    0 <= i < before.undo.len() ==> self@.undo[i] == before.undo[i]);
                assert(self@.undo[before.undo.len() as int] == before.document);
                true
            },
            None => false,
        }
    }

    /// Puts `gid` at `(x, y)` on layer `layer_index`.
    pub fn set_tile(&mut self, layer_index: usize, x: u32, y: u32, gid: u32) -> (r: Result<(), EditorError>)
        requires
            old(self)@.wf(),
        ensures
            final(self)@.wf(),
            applied(
                old(self)@,
                layer_index as int,
                set_tile_outcome(old(self)@.document, layer_index as int, x, y, gid),
                r,
                final(self)@,
            ),
    {
        if let Err(e) = self.document.tile_layer_status(layer_index) {
            return Err(e);
        }
        let in_bounds = match self.document.tile_layer(layer_index) {
            Some(t) => x < t.width && y < t.height,
            None => false,
        };
        if !in_bounds {
            return Err(EditorError::OutOfBounds(x, y));
        }
        let ghost before = self@;
        self.record_edit();
        let ghost mid = self@;
        match &mut self.document.layers[layer_index].kind {
            LayerKind::Tile(t) => {
                let _ = t.set_tile(x, y, gid);
            },
            LayerKind::Object(_) => {},
        }
        proof {
            let t = tile_view(before.document, layer_index as int);
            assert(self@.document =~= with_tiles(before.document, layer_index as int, t.with_tile(x as int, y as int, gid)));
        }
        Ok(())
    }

    /// Bucket fill with `gid` at `(x, y)` on layer `layer_index`.
    pub fn flood_fill(&mut self, layer_index: usize, x: u32, y: u32, gid: u32) -> (r: Result<(), EditorError>)
        requires
            old(self)@.wf(),
        ensures
            final(self)@.wf(),
            applied(
                old(self)@,
                layer_index as int,
                fill_outcome(old(self)@.document, layer_index as int, x, y, gid),
                r,
                final(self)@,
            ),
    {
        if let Err(e) = self.document.tile_layer_status(layer_index) {
            return Err(e);
        }
        let in_bounds = match self.document.tile_layer(layer_index) {
            Some(t) => x < t.width && y < t.height,
            None => false,
        };
        if !in_bounds {
            return Err(EditorError::OutOfBounds(x, y));
        }
        let ghost before = self@;
        self.record_edit();
        match &mut self.document.layers[layer_index].kind {
            LayerKind::Tile(t) => {
                let _ = flood_fill(t, x, y, gid);
            },
            LayerKind::Object(_) => {},
        }
        proof {
            let t = tile_view(before.document, layer_index as int);
            assert(self@.document =~= with_tiles(
                before.document,
                layer_index as int,
                TileLayerView { tiles: filled(t, (x, y), gid), ..t },
            ));
        }
        Ok(())
    }

    /// Gives every listed cell of layer `layer_index` the tile `gid`;
    /// refuses the whole edit when a cell lies outside the layer.
    pub fn set_cells(&mut self, layer_index: usize, cells: &BTreeSet<(u32, u32)>, gid: u32) -> (r: Result<
        (),
        EditorError,
    >)
        requires
            old(self)@.wf(),
        ensures
            final(self)@.wf(),
            tile_layer_status(old(self)@.document, layer_index as int) is Err ==> r == tile_layer_status(
                old(self)@.document,
                layer_index as int,
            ) && final(self)@ == old(self)@,
            tile_layer_status(old(self)@.document, layer_index as int) is Ok ==> match r {
                Ok(()) => (forall|c: (u32, u32)|
                    #[trigger] cells@.contains(c) ==> tile_view(old(self)@.document, layer_index as int).in_bounds(
                        c.0 as int,
                        c.1 as int,
                    )) && final(self)@ == old(self)@.after_edit(
                    with_tiles(
                        old(self)@.document,
                        layer_index as int,
                        cells_painted(tile_view(old(self)@.document, layer_index as int), cells@, gid),
                    ),
                ),
                Err(e) => final(self)@ == old(self)@ && exists|c: (u32, u32)|
                    #[trigger] cells@.contains(c) && !tile_view(old(self)@.document, layer_index as int).in_bounds(
                        c.0 as int,
                        c.1 as int,
                    ) && e == EditorError::OutOfBounds(c.0, c.1) && forall|d: (u32, u32)|
                        #[trigger] cells@.contains(d) && !tile_view(
                            old(self)@.document,
                            layer_index as int,
                        ).in_bounds(d.0 as int, d.1 as int) ==> cell_order_le(c, d),
            },
    {
        if let Err(e) = self.document.tile_layer_status(layer_index) {
            return Err(e);
        }
        let (w, h) = match self.document.tile_layer(layer_index) {
            Some(t) => (t.width, t.height),
            None => (0, 0),
        };
        let ghost start = self@;
        for c in it: cells.iter()
            invariant
                self@ == start,
                start == old(self)@,
                start.wf(),
                tile_layer_status(start.document, layer_index as int) is Ok,
                it.seq().unref().to_set() == cells@,
                forall|c: (u32, u32)|
                    #[trigger] cells@.contains(c) ==> exists|k: int|
                        0 <= k < it.seq().len() && #[trigger] it.seq()[k] == c,
                (w, h) == (
                    tile_view(self@.document, layer_index as int).width,
                    tile_view(self@.document, layer_index as int).height,
                ),
                forall|k: int|
                    0 <= k < it.index() ==> (#[trigger] it.seq()[k]).0 < w && it.seq()[k].1 < h,
                vstd::std_specs::btree::increasing_seq(it.seq()),
        {
            proof {
                assert(it.seq().unref()[it.index()] == *c);
                assert(cells@.contains(*c));
            }
            if !(c.0 < w && c.1 < h) {
                proof {
                    let t = tile_view(start.document, layer_index as int);
                    assert forall|d: (u32, u32)|
                        #[trigger] cells@.contains(d) && !t.in_bounds(d.0 as int, d.1 as int) implies cell_order_le(
                        *c,
                        d,
                    ) by {
                        let k = choose|k: int| 0 <= k < it.seq().len() && #[trigger] it.seq()[k] == d;
                        if k > it.index() {
                            lemma_increasing_cells(it.seq(), it.index() as int, k);
                        }
                    }
                }
                return Err(EditorError::OutOfBounds(c.0, c.1));
            }
        }
        proof {
            assert forall|c: (u32, u32)| #[trigger] cells@.contains(c) implies c.0 < w && c.1 < h by {
            }
        }
        let ghost before = self@;
        self.record_edit();
        match &mut self.document.layers[layer_index].kind {
            LayerKind::Tile(t) => {
                paint_cells(t, cells, gid);
            },
            LayerKind::Object(_) => {},
        }
        proof {
            let t = tile_view(before.document, layer_index as int);
            assert(self@.document =~= with_tiles(
                before.document,
                layer_index as int,
                cells_painted(t, cells@, gid),
            ));
        }
        Ok(())
    }

    /// Writes the `width`×`height` grid `tiles` at `(min_x, min_y)` on
    /// layer `layer_index`, through `mask` when given, clipped to the layer.
    pub fn write_region(
        &mut self,
        layer_index: usize,
        min_x: i32,
        min_y: i32,
        width: u32,
        height: u32,
        tiles: &[u32],
        mask: Option<&[bool]>,
    ) -> (r: Result<(), EditorError>)
        requires
            old(self)@.wf(),
            width * height <= u32::MAX + 1,
            width <= i32::MAX + 1,
            height <= i32::MAX + 1,
            min_x + width <= i32::MAX + 1,
            min_y + height <= i32::MAX + 1,
            tiles@.len() >= width * height,
        ensures
            final(self)@.wf(),
            applied(
                old(self)@,
                layer_index as int,
                write_outcome(
                    old(self)@.document,
                    layer_index as int,
                    min_x as int,
                    min_y as int,
                    width as int,
                    height as int,
                    tiles@,
                    match mask {
                        Some(m) => Some(m@),
                        None => None,
                    },
                ),
                r,
                final(self)@,
            ),
    {
        if let Err(e) = self.document.tile_layer_status(layer_index) {
            return Err(e);
        }
        let ghost before = self@;
        self.record_edit();
        match &mut self.document.layers[layer_index].kind {
            LayerKind::Tile(t) => {
                let _ = write_region_tiles_clipped(t, min_x, min_y, width, height, tiles, mask);
            },
            LayerKind::Object(_) => {},
        }
        proof {
            let t = tile_view(before.document, layer_index as int);
            let mv: Option<Seq<bool>> = match mask {
                Some(m) => Some(m@),
                None => None,
            };
            assert(self@.document =~= with_tiles(
                before.document,
                layer_index as int,
                TileLayerView {
                    tiles: t.written(min_x as int, min_y as int, width as int, height as int, tiles@, mv),
                    ..t
                },
            ));
        }
        Ok(())
    }

    /// Empties the cells that `mask` selects in the `width`×`height`
    /// rectangle at `(min_x, min_y)` on layer `layer_index`.
    pub fn clear_region(
        &mut self,
        layer_index: usize,
        min_x: i32,
        min_y: i32,
        width: u32,
        height: u32,
        mask: &[bool],
    ) -> (r: Result<(), EditorError>)
        requires
            old(self)@.wf(),
            width * height <= u32::MAX + 1,
            width <= i32::MAX + 1,
            height <= i32::MAX + 1,
            min_x + width <= i32::MAX + 1,
            min_y + height <= i32::MAX + 1,
        ensures
            final(self)@.wf(),
            applied(
                old(self)@,
                layer_index as int,
                clear_outcome(
                    old(self)@.document,
                    layer_index as int,
                    min_x as int,
                    min_y as int,
                    width as int,
                    height as int,
                    mask@,
                ),
                r,
                final(self)@,
            ),
    {
        if let Err(e) = self.document.tile_layer_status(layer_index) {
            return Err(e);
        }
        let ghost before = self@;
        self.record_edit();
        match &mut self.document.layers[layer_index].kind {
            LayerKind::Tile(t) => {
                let _ = clear_region_tiles_masked(t, min_x, min_y, width, height, mask);
            },
            LayerKind::Object(_) => {},
        }
        proof {
            let t = tile_view(before.document, layer_index as int);
            assert(self@.document =~= with_tiles(
                before.document,
                layer_index as int,
                TileLayerView {
                    tiles: t.cleared(min_x as int, min_y as int, width as int, height as int, mask@),
                    ..t
                },
            ));
        }
        Ok(())
    }

    /// Turns over the masked cells of the `width`×`height` rectangle at
    /// `(min_x, min_y)` on layer `layer_index`, as one edit.
    pub fn transform_region(
        &mut self,
        layer_index: usize,
        min_x: i32,
        min_y: i32,
        width: u32,
        height: u32,
        mask: &[bool],
        next_mask: &[bool],
        kind: GridTransform,
    ) -> (r: Result<(), EditorError>)
        requires
            old(self)@.wf(),
            width * height <= u32::MAX,
            width <= i32::MAX,
            height <= i32::MAX,
            min_x + width <= i32::MAX + 1,
            min_y + height <= i32::MAX + 1,
            min_x + height <= i32::MAX + 1,
            min_y + width <= i32::MAX + 1,
        ensures
            final(self)@.wf(),
            applied(
                old(self)@,
                layer_index as int,
                transform_outcome(
                    old(self)@.document,
                    layer_index as int,
                    min_x as int,
                    min_y as int,
                    width,
                    height,
                    mask@,
                    next_mask@,
                    kind,
                ),
                r,
                final(self)@,
            ),
    {
        if let Err(e) = self.document.tile_layer_status(layer_index) {
            return Err(e);
        }
        let ghost before = self@;
        self.record_edit();
        let (nw, nh) = match kind {
            GridTransform::RotateCw => (height, width),
            _ => (width, height),
        };
        proof {
            assert(nw * nh == width * height) by (nonlinear_arith)
                requires
                    (nw == width && nh == height) || (nw == height && nh == width),
            ;
        }
        match &mut self.document.layers[layer_index].kind {
            LayerKind::Tile(t) => {
                let snapshot = capture_region_clipped(t, min_x, min_y, width, height);
                let moved = transform_tiles(kind, width, height, &snapshot);
                let _ = clear_region_tiles_masked(t, min_x, min_y, width, height, mask);
                let _ = write_region_tiles_clipped(t, min_x, min_y, nw, nh, &moved, Some(next_mask));
            },
            LayerKind::Object(_) => {},
        }
        proof {
            let t = tile_view(before.document, layer_index as int);
            let moved = transform_seq(kind, width as int, height as int, t.capture(min_x as int, min_y as int, width as int, height as int));
            let t1 = TileLayerView { tiles: t.cleared(min_x as int, min_y as int, width as int, height as int, mask@), ..t };
            assert(self@.document =~= with_tiles(
                before.document,
                layer_index as int,
                TileLayerView {
                    tiles: t1.written(min_x as int, min_y as int, nw as int, nh as int, moved, Some(next_mask@)),
                    ..t
                },
            ));
        }
        Ok(())
    }
}

/// Cell `a` comes no later than cell `b` by column, then row.
pub open spec fn cell_order_le(a: (u32, u32), b: (u32, u32)) -> bool {
    a.0 < b.0 || (a.0 == b.0 && a.1 <= b.1)
}

/// Cells listed in increasing order come in column, then row, order.
proof fn lemma_increasing_cells(s: Seq<&(u32, u32)>, i: int, k: int)
    requires
        vstd::std_specs::btree::increasing_seq(s),
        0 <= i < k < s.len(),
    ensures
        cell_order_le(*s[i], *s[k]),
{
    assert(vstd::std_specs::cmp::OrdSpec::cmp_spec(&s[i], &s[k]) is Less);
}

/// The layers of a document with layers `a` and `b` trading places.
pub open spec fn layers_swapped(doc: Seq<LayerView>, a: int, b: int) -> Seq<LayerView> {
    doc.update(a, doc[b]).update(b, doc[a])
}

/// The layers of a document with layer `i` renamed.
pub open spec fn layer_renamed(doc: Seq<LayerView>, i: int, name: Seq<char>) -> Seq<LayerView> {
    doc.update(i, LayerView { name, ..doc[i] })
}

/// A new, visible and unlocked layer called `name` holding `kind`.
pub open spec fn new_layer(name: Seq<char>, kind: LayerKindView) -> LayerView {
    LayerView { name, locked: false, visible: true, kind }
}

/// An empty `w`×`h` tile grid.
pub open spec fn empty_tiles(w: u32, h: u32) -> TileLayerView {
    TileLayerView { width: w, height: h, tiles: Seq::new((w * h) as nat, |i: int| 0u32) }
}

impl EditorSession {
    /// Layers `a` and `b` trade places, outside the history.
    pub fn swap_layers(&mut self, a: usize, b: usize)
        requires
            old(self)@.wf(),
            a < old(self)@.document.len(),
            b < old(self)@.document.len(),
        ensures
            final(self)@ == (SessionView {
                document: layers_swapped(old(self)@.document, a as int, b as int),
                ..old(self)@
            }),
            final(self)@.wf(),
            final(self).tilesets() == old(self).tilesets(),
            final(self).map_size() == old(self).map_size(),
    {
        let ghost before = self@;
        let ghost layers0 = self.document.layers@;
        if a != b {
            let (lo, hi) = if a < b {
                (a, b)
            } else {
                (b, a)
            };
            let upper = self.document.layers.remove(hi);
            let lower = self.document.layers.remove(lo);
            self.document.layers.insert(lo, upper);
            self.document.layers.insert(hi, lower);
            assert(self.document.layers@ =~= layers0.update(lo as int, layers0[hi as int]).update(
                hi as int,
                layers0[lo as int],
            ));
        }
        proof {
            assert(self@.document =~= layers_swapped(before.document, a as int, b as int));
            assert forall|i: int| 0 <= i < self@.document.len() implies match #[trigger] self@.document[i].kind {
                LayerKindView::Tile(t) => t.wf(),
                LayerKindView::Object(_) => true,
            } by {
                if i == a as int {
                    assert(self@.document[i] == before.document[b as int]);
                } else if i == b as int {
                    assert(self@.document[i] == before.document[a as int]);
                } else {
                    assert(self@.document[i] == before.document[i]);
                }
            }
        }
    }

    /// Removes layer `i`, outside the history.
    pub fn remove_layer(&mut self, i: usize)
        requires
            old(self)@.wf(),
            i < old(self)@.document.len(),
        ensures
            final(self)@ == (SessionView { document: old(self)@.document.remove(i as int), ..old(self)@ }),
            final(self)@.wf(),
            final(self).tilesets() == old(self).tilesets(),
            final(self).map_size() == old(self).map_size(),
    {
        let ghost before = self@;
        let _ = self.document.layers.remove(i);
        proof {
            assert(self@.document =~= before.document.remove(i as int));
            assert forall|k: int| 0 <= k < self@.document.len() implies match #[trigger] self@.document[k].kind {
                LayerKindView::Tile(t) => t.wf(),
                LayerKindView::Object(_) => true,
            } by {
                if k < i {
                    assert(self@.document[k] == before.document[k]);
                } else {
                    assert(self@.document[k] == before.document[k + 1]);
                }
            }
        }
    }

    /// Renames layer `i`, outside the history.
    pub fn rename_layer(&mut self, i: usize, name: String)
        requires
            old(self)@.wf(),
            i < old(self)@.document.len(),
        ensures
            final(self)@ == (SessionView {
                document: layer_renamed(old(self)@.document, i as int, name@),
                ..old(self)@
            }),
            final(self)@.wf(),
            final(self).tilesets() == old(self).tilesets(),
            final(self).map_size() == old(self).map_size(),
    {
        let ghost before = self@;
        let ghost new_name = name@;
        self.document.layers[i].name = name;
        proof {
            assert(self@.document =~= layer_renamed(before.document, i as int, new_name));
            assert forall|k: int| 0 <= k < self@.document.len() implies match #[trigger] self@.document[k].kind {
                LayerKindView::Tile(t) => t.wf(),
                LayerKindView::Object(_) => true,
            } by {
                assert(self@.document[k].kind == before.document[k].kind);
            }
        }
    }

    /// Adds an empty tile layer the size of the map on top, outside the
    /// history, and gives its index.
    pub fn add_tile_layer(&mut self, name: String) -> (index: usize)
        requires
            old(self)@.wf(),
            old(self).map_size().0 * old(self).map_size().1 <= usize::MAX,
            old(self)@.document.len() < usize::MAX,
        ensures
            index == old(self)@.document.len(),
            final(self)@ == (SessionView {
                document: old(self)@.document.push(
                    new_layer(
                        name@,
                        LayerKindView::Tile(empty_tiles(old(self).map_size().0, old(self).map_size().1)),
                    ),
                ),
                ..old(self)@
            }),
            final(self)@.wf(),
            final(self).tilesets() == old(self).tilesets(),
            final(self).map_size() == old(self).map_size(),
    {
        let ghost before = self@;
        let w = self.document.width;
        let h = self.document.height;
        let n: usize = w as usize * h as usize;
        let mut tiles: Vec<u32> = Vec::new();
        while tiles.len() < n
            invariant
                tiles@.len() <= n,
                forall|k: int| 0 <= k < tiles@.len() ==> tiles@[k] == 0,
            decreases n - tiles@.len(),
        {
            tiles.push(0);
        }
        assert(tiles@ =~= empty_tiles(w, h).tiles);
        let index = self.document.layers.len();
        self.document.layers.push(
            crate::document::Layer {
                name,
                locked: false,
                visible: true,
                kind: LayerKind::Tile(crate::layer::TileLayer { width: w, height: h, tiles }),
            },
        );
        proof {
            assert(self@.document =~= before.document.push(
                new_layer(name@, LayerKindView::Tile(empty_tiles(w, h))),
            ));
            assert(doc_wf(self@.document)) by {
                assert forall|i: int| 0 <= i < self@.document.len() implies match #[trigger] self@.document[i].kind {
                    LayerKindView::Tile(t) => t.wf(),
                    LayerKindView::Object(_) => true,
                } by {
                    if i < before.document.len() {
                        assert(self@.document[i] == before.document[i]);
                    }
                }
            }
        }
        index
    }

    /// Adds an empty object layer on top, outside the history, and gives
    /// its index.
    pub fn add_object_layer(&mut self, name: String) -> (index: usize)
        requires
            old(self)@.wf(),
            old(self)@.document.len() < usize::MAX,
        ensures
            index == old(self)@.document.len(),
            final(self)@ == (SessionView {
                document: old(self)@.document.push(new_layer(name@, LayerKindView::Object(Seq::empty()))),
                ..old(self)@
            }),
            final(self)@.wf(),
            final(self).tilesets() == old(self).tilesets(),
            final(self).map_size() == old(self).map_size(),
    {
        let ghost before = self@;
        let index = self.document.layers.len();
        self.document.layers.push(
            crate::document::Layer {
                name,
                locked: false,
                visible: true,
                kind: LayerKind::Object(crate::document::ObjectLayer { object_ids: Vec::new() }),
            },
        );
        proof {
            assert(self@.document =~= before.document.push(new_layer(name@, LayerKindView::Object(Seq::empty()))));
            assert(doc_wf(self@.document)) by {
                assert forall|i: int| 0 <= i < self@.document.len() implies match #[trigger] self@.document[i].kind {
                    LayerKindView::Tile(t) => t.wf(),
                    LayerKindView::Object(_) => true,
                } by {
                    if i < before.document.len() {
                        assert(self@.document[i] == before.document[i]);
                    }
                }
            }
        }
        index
    }
}

/// Where object `id` sits among an object layer's ids: its first place.
pub open spec fn object_place(ids: Seq<u32>, id: u32) -> int {
    choose|k: int| 0 <= k < ids.len() && ids[k] == id && forall|j: int| 0 <= j < k ==> ids[j] != id
}

/// The document after removing object `id` from layer `i`, or why not.
pub open spec fn remove_object_outcome(doc: Seq<LayerView>, i: int, id: u32) -> Result<Seq<LayerView>, EditorError> {
    if !(0 <= i < doc.len()) {
        Err(EditorError::UnknownLayer(i as usize))
    } else {
        match doc[i].kind {
            LayerKindView::Tile(_) => Err(EditorError::NotObjectLayer),
            LayerKindView::Object(ids) => if ids.contains(id) {
                Ok(doc.update(i, LayerView { kind: LayerKindView::Object(ids.remove(object_place(ids, id))), ..doc[i] }))
            } else {
                Err(EditorError::ObjectNotFound(id))
            },
        }
    }
}

/// The first place of `id` among `ids`.
fn first_place_of(ids: &Vec<u32>, id: u32) -> (r: Option<usize>)
    ensures
        match r {
            Some(p) => p < ids@.len() && ids@[p as int] == id && forall|j: int| 0 <= j < p ==> ids@[j] != id,
            None => !ids@.contains(id),
        },
{
    let mut k: usize = 0;
    while k < ids.len()
        invariant
            k <= ids@.len(),
            forall|j: int| 0 <= j < k ==> ids@[j] != id,
        decreases ids@.len() - k,
    {
        if ids[k] == id {
            return Some(k);
        }
        k = k + 1;
    }
    None
}

impl EditorSession {
    /// Removes object `id` from layer `layer_index` as one edit.
    pub fn remove_object(&mut self, layer_index: usize, id: u32) -> (r: Result<(), EditorError>)
        requires
            old(self)@.wf(),
        ensures
            final(self)@.wf(),
            final(self).tilesets() == old(self).tilesets(),
            final(self).map_size() == old(self).map_size(),
            match remove_object_outcome(old(self)@.document, layer_index as int, id) {
                Ok(next) => r == Ok::<(), EditorError>(()) && final(self)@ == old(self)@.after_edit(next),
                Err(e) => r == Err::<(), EditorError>(e) && final(self)@ == old(self)@,
            },
    {
        if layer_index >= self.document.layers.len() {
            return Err(EditorError::UnknownLayer(layer_index));
        }
        let ghost ids0 = self@.document[layer_index as int].kind;
        let place = match &self.document.layers[layer_index].kind {
            LayerKind::Tile(_) => {
                return Err(EditorError::NotObjectLayer);
            },
            LayerKind::Object(o) => {
                assert(self@.document[layer_index as int] == self.document.layers@[layer_index as int]@);
                let found = first_place_of(&o.object_ids, id);
                match found {
                    None => {
                        return Err(EditorError::ObjectNotFound(id));
                    },
                    Some(p) => {
                        proof {
                            let c = object_place(o.object_ids@, id);
                            assert(o.object_ids@[p as int] == id);
                            assert(o.object_ids@.contains(id));
                            if c < p {
                            } else if p < c {
                            }
                        }
                        p
                    },
                }
            },
        };
        let ghost before = self@;
        self.record_edit();
        match &mut self.document.layers[layer_index].kind {
            LayerKind::Object(o) => {
                let _ = o.object_ids.remove(place);
            },
            LayerKind::Tile(_) => {},
        }
        proof {
            let ids = match before.document[layer_index as int].kind {
                LayerKindView::Object(ids) => ids,
                LayerKindView::Tile(_) => Seq::empty(),
            };
            assert(self@.document =~= before.document.update(
                layer_index as int,
                LayerView { kind: LayerKindView::Object(ids.remove(place as int)), ..before.document[layer_index as int] },
            ));
            assert forall|i: int| 0 <= i < self@.document.len() implies match #[trigger] self@.document[i].kind {
                LayerKindView::Tile(t) => t.wf(),
                LayerKindView::Object(_) => true,
            } by {
                if i != layer_index {
                    assert(self@.document[i] == before.document[i]);
                }
            }
        }
        Ok(())
    }
}

/// The session after a series of accepted edits producing the documents
/// `docs`, in order.
pub open spec fn after_edits(s: SessionView, docs: Seq<Seq<LayerView>>) -> SessionView
    decreases docs.len(),
{
    if docs.len() == 0 {
        s
    } else {
        after_edits(s, docs.drop_last()).after_edit(docs.last())
    }
}

/// Undoing an edit made outside a batch gives back the document from
/// before the edit and the history from before it; redoing then gives back
/// the edited document.
pub proof fn lemma_undo_reverts_edit(s: SessionView, next: Seq<LayerView>)
    requires
        !s.batch_active,
    ensures
        s.after_edit(next).undo.len() > 0,
        s.after_edit(next).undone().document == s.document,
        s.after_edit(next).undone().undo == s.undo,
        s.after_edit(next).undone().redone().document == next,
        s.after_edit(next).undone().redone().undo == s.after_edit(next).undo,
{
    assert(s.after_edit(next).undo.drop_last() =~= s.undo);
    assert(s.after_edit(next).undone().redo.drop_last() =~= s.after_edit(next).redo);
}

/// Inside an open batch, the edits after the first add no undo step: the
/// single step holds the document from when the batch was opened.
pub proof fn lemma_batch_records_once(s: SessionView, docs: Seq<Seq<LayerView>>)
    requires
        !s.batch_active,
        docs.len() > 0,
    ensures
        after_edits(s.begun(), docs).undo == s.undo.push(s.document),
        after_edits(s.begun(), docs).document == docs.last(),
        after_edits(s.begun(), docs).batch_active,
        after_edits(s.begun(), docs).batch_recorded,
    decreases docs.len(),
{
    if docs.len() > 1 {
        lemma_batch_records_once(s, docs.drop_last());
    } else {
        assert(docs.drop_last() =~= Seq::<Seq<LayerView>>::empty());
        assert(after_edits(s.begun(), docs.drop_last()) == s.begun());
    }
}

/// A finished batch of edits is one undo step: undoing it gives back the
/// document from before the batch and the history from before it.
pub proof fn lemma_batch_undoes_as_one(s: SessionView, docs: Seq<Seq<LayerView>>)
    requires
        !s.batch_active,
        docs.len() > 0,
    ensures
        after_edits(s.begun(), docs).finish_recorded(),
        after_edits(s.begun(), docs).finished().undone().document == s.document,
        after_edits(s.begun(), docs).finished().undone().undo == s.undo,
{
    lemma_batch_records_once(s, docs);
    assert(after_edits(s.begun(), docs).finished().undo.drop_last() =~= s.undo);
}

/// An aborted batch keeps its edits in the document but leaves the undo
/// history as it was before the batch.
pub proof fn lemma_aborted_batch_leaves_history(s: SessionView, docs: Seq<Seq<LayerView>>)
    requires
        !s.batch_active,
        docs.len() > 0,
    ensures
        after_edits(s.begun(), docs).aborted().undo == s.undo,
        after_edits(s.begun(), docs).aborted().document == docs.last(),
        !after_edits(s.begun(), docs).aborted().batch_active,
{
    lemma_batch_records_once(s, docs);
    assert(s.undo.push(s.document).drop_last() =~= s.undo);
}


/// The tile a flip or quarter turn of the `w`×`h` rectangle at
/// `(min_x, min_y)` of `t` brings to local cell `(lx, ly)` of the turned
/// rectangle: the tile of the cell it comes from, 0 when that cell lies
/// off the layer.
pub open spec fn turned_tile(
    t: TileLayerView,
    kind: GridTransform,
    min_x: int,
    min_y: int,
    w: int,
    h: int,
    lx: int,
    ly: int,
) -> u32 {
    let (ax, ay) = match kind {
        GridTransform::FlipH => (w - 1 - lx, ly),
        GridTransform::FlipV => (lx, h - 1 - ly),
        GridTransform::RotateCw => (ly, h - 1 - lx),
    };
    if t.in_bounds(min_x + ax, min_y + ay) {
        t.tile(min_x + ax, min_y + ay)
    } else {
        0
    }
}

/// Turning the masked cells of a rectangle over in place (a flip keeps
/// its size, a quarter turn swaps width and height): a cell the turned
/// mask selects takes the tile of the cell it comes from; a cell of the
/// old selection that the turned mask leaves out is emptied (tile 0);
/// every other cell of the layer keeps its tile.
pub proof fn lemma_turn_in_place_cells(
    doc: Seq<LayerView>,
    i: int,
    min_x: int,
    min_y: int,
    w: u32,
    h: u32,
    mask: Seq<bool>,
    next_mask: Seq<bool>,
    kind: GridTransform,
    x: int,
    y: int,
)
    requires
        doc_wf(doc),
        tile_layer_status(doc, i) is Ok,
        tile_view(doc, i).in_bounds(x, y),
    ensures
        ({
            let t = tile_view(doc, i);
            let (nw, nh) = transform_dims(kind, w, h);
            let lx = x - min_x;
            let ly = y - min_y;
            let in_old = 0 <= lx < w && 0 <= ly < h;
            let in_new = 0 <= lx < nw && 0 <= ly < nh;
            let k_old = ly * w + lx;
            let k_new = ly * nw + lx;
            &&& transform_outcome(doc, i, min_x, min_y, w, h, mask, next_mask, kind) matches Ok(t2)
            &&& t2.width == t.width && t2.height == t.height && t2.tiles.len() == t.tiles.len()
            &&& (in_new && mask_at(next_mask, k_new) ==> t2.tile(x, y) == turned_tile(
                t,
                kind,
                min_x,
                min_y,
                w as int,
                h as int,
                lx,
                ly,
            ))
            &&& (in_old && mask_at(mask, k_old) && !(in_new && mask_at(next_mask, k_new)) ==> t2.tile(x, y)
                == 0)
            &&& (!(in_old && mask_at(mask, k_old)) && !(in_new && mask_at(next_mask, k_new)) ==> t2.tile(x, y)
                == t.tile(x, y))
        }),
{
    let t = tile_view(doc, i);
    assert(t.wf());
    let wi = w as int;
    let hi = h as int;
    let (nw, nh) = transform_dims(kind, w, h);
    let cap = t.capture(min_x, min_y, wi, hi);
    let moved = transform_seq(kind, wi, hi, cap);
    let t1 = TileLayerView { tiles: t.cleared(min_x, min_y, wi, hi, mask), ..t };
    let t2 = TileLayerView { tiles: t1.written(min_x, min_y, nw as int, nh as int, moved, Some(next_mask)), ..t };
    assert(transform_outcome(doc, i, min_x, min_y, w, h, mask, next_mask, kind) == Ok::<TileLayerView, EditorError>(t2));
    lemma_layer_index(t, x, y);
    let idx = y * t.width + x;
    let lx = x - min_x;
    let ly = y - min_y;
    assert(t.local_x(idx, min_x) == lx);
    assert(t.local_y(idx, min_y) == ly);
    assert(t2.tile(x, y) == t2.tiles[idx]);
    if 0 <= lx < wi && 0 <= ly < hi {
        lemma_grid_cell(wi, hi, lx, ly);
    }
    if 0 <= lx < nw && 0 <= ly < nh {
        lemma_grid_cell(nw as int, nh as int, lx, ly);
        let k = ly * nw + lx;
        if mask_at(next_mask, k) {
            let (ax, ay) = match kind {
                GridTransform::FlipH => (wi - 1 - lx, ly),
                GridTransform::FlipV => (lx, hi - 1 - ly),
                GridTransform::RotateCw => (ly, hi - 1 - lx),
            };
            lemma_grid_cell(wi, hi, ax, ay);
            assert(moved[k] == cap[ay * wi + ax]);
        }
    }
}

} // verus!
