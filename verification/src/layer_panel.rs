//! The layer panel: picking the active layer, hiding layers in the
//! editor, and adding, reordering, renaming and deleting layers. These
//! change the document outside the undo history.

use vstd::prelude::*;
use vstd::string::*;
use crate::editor::{EditorState, EditorView};
use crate::history::{layer_renamed, layers_swapped, new_layer, empty_tiles};
use crate::document::LayerKindView;
use crate::workspace::{decimal, decimal_text};

verus! {

broadcast use {vstd::std_specs::btree::group_btree_axioms, vstd::laws_cmp::group_laws_cmp};

impl EditorView {
    /// The state after the eye of layer `i` is tapped: hidden becomes
    /// shown and shown becomes hidden.
    pub open spec fn after_toggle_hidden(self, i: usize) -> EditorView {
        EditorView {
            hidden_layers: if self.hidden_layers.contains(i) {
                self.hidden_layers.remove(i)
            } else {
                self.hidden_layers.insert(i)
            },
            tiles_dirty: true,
            canvas_dirty: true,
            ..self
        }
    }

    /// The state after layers `a` and `b` trade places and layer `b`
    /// becomes the active one.
    pub open spec fn after_layer_swap(self, a: usize, b: usize) -> EditorView {
        match self.session {
            Some(ss) => EditorView {
                session: Some(
                    crate::history::SessionView { document: layers_swapped(ss.document, a as int, b as int), ..ss },
                ),
                active_layer: b,
                tiles_dirty: true,
                canvas_dirty: true,
                ..self
            },
            None => self,
        }
    }

    /// The state after layer `i` is moved one place up.
    pub open spec fn after_move_up(self, i: usize) -> EditorView {
        match self.session {
            Some(ss) => if i + 1 < ss.document.len() {
                self.after_layer_swap(i, (i + 1) as usize)
            } else {
                self
            },
            None => self,
        }
    }

    /// The state after layer `i` is moved one place down.
    pub open spec fn after_move_down(self, i: usize) -> EditorView {
        match self.session {
            Some(ss) => if 0 < i < ss.document.len() {
                self.after_layer_swap(i, (i - 1) as usize)
            } else {
                self
            },
            None => self,
        }
    }

    /// The state after layer `idx` is deleted: the layers above move
    /// down one place, the active layer index follows when it was at or
    /// above the deleted one, and `idx` is no longer hidden.
    pub open spec fn after_delete_layer(self, idx: usize) -> EditorView {
        match self.session {
            Some(ss) => EditorView {
                session: Some(
                    if idx < ss.document.len() {
                        crate::history::SessionView { document: ss.document.remove(idx as int), ..ss }
                    } else {
                        ss
                    },
                ),
                active_layer: if self.active_layer >= idx && self.active_layer > 0 {
                    (self.active_layer - 1) as usize
                } else {
                    self.active_layer
                },
                hidden_layers: self.hidden_layers.remove(idx),
                tiles_dirty: true,
                canvas_dirty: true,
                ..self
            },
            None => self,
        }
    }

    /// The state after layer `i` is renamed to `name`; an empty name or a
    /// missing layer changes nothing.
    pub open spec fn after_rename_layer(self, i: usize, name: Seq<char>) -> EditorView {
        match self.session {
            Some(ss) => if i < ss.document.len() && name.len() > 0 {
                EditorView {
                    session: Some(
                        crate::history::SessionView { document: layer_renamed(ss.document, i as int, name), ..ss },
                    ),
                    ..self
                }
            } else {
                self
            },
            None => self,
        }
    }
}

/// The name a new layer gets: "Tile n" or "Object n", with `n` one more
/// than the number of layers.
pub open spec fn new_layer_name(is_object: bool, count: nat) -> Seq<char> {
    (if is_object {
        "Object "@
    } else {
        "Tile "@
    }) + decimal(count + 1)
}

/// Another layer can be added: the layer count stays within the range of
/// layer numbers, and a tile layer's grid fits in memory.
pub open spec fn room_for_layer(is_object: bool, count: nat, size: (u32, u32)) -> bool {
    count < 0xffff_fffe && (is_object || size.0 * size.1 <= usize::MAX)
}

impl EditorState {
    /// Hides or shows layer `i` in the editor; tells whether it is now
    /// hidden.
    pub fn toggle_layer_hidden(&mut self, i: usize) -> (now_hidden: bool)
        ensures
            now_hidden == !old(self)@.hidden_layers.contains(i),
            final(self)@ == old(self)@.after_toggle_hidden(i),
    {
        let now_hidden = if self.hidden_layers.contains(&i) {
            self.hidden_layers.remove(&i);
            false
        } else {
            self.hidden_layers.insert(i);
            true
        };
        self.tiles_dirty = true;
        self.canvas_dirty = true;
        now_hidden
    }

    /// Makes layer `i` the active one.
    pub fn select_layer(&mut self, i: usize)
        ensures
            final(self)@ == (EditorView { active_layer: i, canvas_dirty: true, ..old(self)@ }),
    {
        self.active_layer = i;
        self.canvas_dirty = true;
    }

    /// Moves layer `i` one place up and keeps it active.
    pub fn move_layer_up(&mut self, i: usize)
        requires
            old(self)@.wf(),
        ensures
            final(self)@.wf(),
            final(self)@ == old(self)@.after_move_up(i),
    {
        let count = match &self.session {
            Some(session) => session.document().layers.len(),
            None => {
                return;
            },
        };
        if i < count && i + 1 < count {
            match &mut self.session {
                Some(session) => session.swap_layers(i, i + 1),
                None => {},
            }
            self.active_layer = i + 1;
            self.tiles_dirty = true;
            self.canvas_dirty = true;
        }
    }

    /// Moves layer `i` one place down and keeps it active.
    pub fn move_layer_down(&mut self, i: usize)
        requires
            old(self)@.wf(),
        ensures
            final(self)@.wf(),
            final(self)@ == old(self)@.after_move_down(i),
    {
        let count = match &self.session {
            Some(session) => session.document().layers.len(),
            None => {
                return;
            },
        };
        if 0 < i && i < count {
            match &mut self.session {
                Some(session) => session.swap_layers(i, i - 1),
                None => {},
            }
            self.active_layer = i - 1;
            self.tiles_dirty = true;
            self.canvas_dirty = true;
        }
    }

    /// Deletes layer `idx`.
    pub fn delete_layer(&mut self, idx: usize)
        requires
            old(self)@.wf(),
        ensures
            final(self)@.wf(),
            final(self)@ == old(self)@.after_delete_layer(idx),
    {
        match &mut self.session {
            Some(session) => {
                if idx < session.document().layers.len() {
                    session.remove_layer(idx);
                }
            },
            None => {
                return;
            },
        }
        if self.active_layer >= idx && self.active_layer > 0 {
            self.active_layer = self.active_layer - 1;
        }
        self.hidden_layers.remove(&idx);
        self.tiles_dirty = true;
        self.canvas_dirty = true;
    }

    /// Renames layer `i`; an empty name is ignored.
    pub fn rename_layer(&mut self, i: usize, name: String)
        requires
            old(self)@.wf(),
        ensures
            final(self)@.wf(),
            final(self)@ == old(self)@.after_rename_layer(i, name@),
    {
        match &mut self.session {
            Some(session) => {
                if i < session.document().layers.len() && name.unicode_len() > 0 {
                    session.rename_layer(i, name);
                }
            },
            None => {},
        }
    }

    /// Adds a tile layer (or, with `is_object`, an object layer) on top,
    /// named after the new layer count, and makes it active. Nothing
    /// happens without a map, or when the map is too large to hold
    /// another layer.
    pub fn add_layer(&mut self, is_object: bool)
        requires
            old(self)@.wf(),
        ensures
            final(self)@.wf(),
            match old(self)@.session {
                None => final(self)@ == old(self)@,
                Some(ss) => if !room_for_layer(
                    is_object,
                    ss.document.len(),
                    old(self).session->Some_0.map_size(),
                ) {
                    final(self)@ == old(self)@
                } else {
                    final(self)@ == (EditorView {
                    session: Some(
                        crate::history::SessionView {
                            document: ss.document.push(
                                new_layer(
                                    new_layer_name(is_object, ss.document.len()),
                                    if is_object {
                                        LayerKindView::Object(Seq::empty())
                                    } else {
                                        LayerKindView::Tile(
                                            empty_tiles(
                                                old(self).session->Some_0.map_size().0,
                                                old(self).session->Some_0.map_size().1,
                                            ),
                                        )
                                    },
                                ),
                            ),
                            ..ss
                        },
                    ),
                    active_layer: ss.document.len() as usize,
                    tiles_dirty: true,
                    canvas_dirty: true,
                    ..old(self)@
                })
                },
            },
    {
        let (count, w, h) = match &self.session {
            Some(session) => {
                let d = session.document();
                (d.layers.len(), d.width, d.height)
            },
            None => {
                return;
            },
        };
        if count >= 0xffff_fffe {
            return;
        }
        assert(w as u64 * h as u64 <= 0xffff_ffff * 0xffff_ffff) by (nonlinear_arith)
            requires
                w <= 0xffff_ffff,
                h <= 0xffff_ffff,
        ;
        let area: u64 = w as u64 * h as u64;
        if !is_object && area > usize::MAX as u64 {
            return;
        }
        let mut name = if is_object {
            String::from_str("Object ")
        } else {
            String::from_str("Tile ")
        };
        name.append(decimal_text((count as u32 + 1) as u64).as_str());
        let index = match &mut self.session {
            Some(session) => if is_object {
                session.add_object_layer(name)
            } else {
                session.add_tile_layer(name)
            },
            None => {
                return;
            },
        };
        self.active_layer = index;
        self.tiles_dirty = true;
        self.canvas_dirty = true;
    }
}


/// Deleting a layer other than the active one keeps the same layer
/// active: after the layers above the deleted one move down, the active
/// index names the layer it named before. In particular deleting a layer
/// above the active one leaves the active index as it was. The document
/// loses exactly the deleted layer.
pub proof fn lemma_delete_keeps_active_layer(s: EditorView, idx: usize)
    requires
        s.session is Some,
        idx < s.session->Some_0.document.len(),
        s.active_layer < s.session->Some_0.document.len(),
        idx != s.active_layer,
    ensures
        ({
            let doc = s.session->Some_0.document;
            let v = s.after_delete_layer(idx);
            let nd = v.session->Some_0.document;
            &&& v.session is Some
            &&& nd.len() == doc.len() - 1
            &&& forall|j: int| 0 <= j < idx ==> nd[j] == doc[j]
            &&& forall|j: int| idx <= j < nd.len() ==> nd[j] == doc[j + 1]
            &&& v.active_layer < nd.len()
            &&& nd[v.active_layer as int] == doc[s.active_layer as int]
            &&& idx > s.active_layer ==> v.active_layer == s.active_layer
            &&& idx < s.active_layer ==> v.active_layer == s.active_layer - 1
        }),
{
}

} // verus!
