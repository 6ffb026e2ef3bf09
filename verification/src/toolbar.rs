//! The editor toolbar and the layer list: which tools a layer's toolbar
//! offers, switching the active layer, and the labels shown per layer.

use vstd::prelude::*;
use crate::document::{Layer, LayerKind, LayerKindView, LayerView};
use crate::editor::{EditorState, EditorView, Tool};
use crate::history::EditorSession;

verus! {

/// The toolbar shown for the active layer.
#[derive(Clone, Copy, Debug, PartialEq, Eq, Structural)]
pub enum ToolbarKind {
    Tile,
    Object,
}

/// The object toolbar for an existing object layer, the tile toolbar
/// otherwise.
pub open spec fn toolbar_kind_of(doc: Seq<LayerView>, i: int) -> ToolbarKind {
    if 0 <= i < doc.len() && doc[i].kind is Object {
        ToolbarKind::Object
    } else {
        ToolbarKind::Tile
    }
}

/// The toolbar for layer `layer_index` of the session's document.
pub fn active_toolbar_kind(session: &EditorSession, layer_index: usize) -> (k: ToolbarKind)
    ensures
        k == toolbar_kind_of(session@.document, layer_index as int),
{
    let doc = session.document();
    if layer_index < doc.layers.len() && !doc.layers[layer_index].is_tile() {
        ToolbarKind::Object
    } else {
        ToolbarKind::Tile
    }
}

/// The tools each toolbar offers.
pub open spec fn supports_tool(kind: ToolbarKind, tool: Tool) -> bool {
    match kind {
        ToolbarKind::Tile => tool == Tool::Hand || tool == Tool::Paint || tool == Tool::Fill
            || tool == Tool::ShapeFill || tool == Tool::Erase || tool == Tool::Select,
        ToolbarKind::Object => tool == Tool::Select || tool == Tool::AddRectangle || tool
            == Tool::AddPoint,
    }
}

/// Whether the toolbar of `kind` offers `tool`.
pub fn toolbar_supports_tool(kind: ToolbarKind, tool: Tool) -> (b: bool)
    ensures
        b == supports_tool(kind, tool),
{
    match kind {
        ToolbarKind::Tile => match tool {
            Tool::Hand | Tool::Paint | Tool::Fill | Tool::ShapeFill | Tool::Erase | Tool::Select => true,
            _ => false,
        },
        ToolbarKind::Object => match tool {
            Tool::Select | Tool::AddRectangle | Tool::AddPoint => true,
            _ => false,
        },
    }
}

impl EditorView {
    /// The state after layer `i` becomes active with the toolbar of
    /// `kind`: object and tile selections and the shape preview are
    /// dropped, and a tool the toolbar does not offer gives way to paint
    /// (tiles) or select (objects).
    pub open spec fn after_set_active_layer_kind(self, i: usize, kind: ToolbarKind) -> EditorView {
        EditorView {
            active_layer: i,
            selected_object: None,
            shape_fill_preview: None,
            selection: None,
            preview: None,
            tool: if supports_tool(kind, self.tool) {
                self.tool
            } else {
                match kind {
                    ToolbarKind::Tile => Tool::Paint,
                    ToolbarKind::Object => Tool::Select,
                }
            },
            ..self
        }
    }
}

impl EditorState {
    /// Makes layer `layer_index` active with the toolbar of `kind`.
    pub fn set_active_layer_kind(&mut self, layer_index: usize, kind: ToolbarKind)
        ensures
            final(self)@ == old(self)@.after_set_active_layer_kind(layer_index, kind),
    {
        self.active_layer = layer_index;
        self.selected_object = None;
        self.shape_fill_preview = None;
        self.tile_selection = None;
        self.tile_selection_preview = None;
        if !toolbar_supports_tool(kind, self.tool) {
            self.tool = match kind {
                ToolbarKind::Tile => Tool::Paint,
                ToolbarKind::Object => Tool::Select,
            };
        }
    }
}

/// The label naming a layer's kind.
pub open spec fn kind_label(l: LayerView) -> Seq<char> {
    if l.kind is Tile {
        "Tile Layer"@
    } else {
        "Object Layer"@
    }
}

/// The label naming the kind of `layer`.
pub fn layer_kind_label(layer: &Layer) -> (s: &'static str)
    ensures
        s@ == kind_label(layer@),
{
    if layer.is_tile() {
        "Tile Layer"
    } else {
        "Object Layer"
    }
}

/// The code of `c` with ASCII capitals lowered.
pub open spec fn lower_code(c: char) -> u32 {
    if 'A' <= c && c <= 'Z' {
        (c as u32 + 32) as u32
    } else {
        c as u32
    }
}

/// `p` occurs in `s` at position `i`, ASCII case ignored in `s`.
pub open spec fn part_at(s: Seq<char>, p: Seq<char>, i: int) -> bool {
    forall|j: int| 0 <= j < p.len() ==> lower_code(#[trigger] s[i + j]) == p[j] as u32
}

/// `p` occurs somewhere in `s` once ASCII capitals in `s` are lowered.
pub open spec fn contains_lowered(s: Seq<char>, p: Seq<char>) -> bool {
    exists|i: int| 0 <= i && i + p.len() <= s.len() && #[trigger] part_at(s, p, i)
}

/// Whether `needle` occurs in `text` with ASCII capitals lowered.
fn contains_lowered_str(text: &str, needle: &str) -> (b: bool)
    ensures
        b == contains_lowered(text@, needle@),
{
    let n = text.unicode_len();
    let m = needle.unicode_len();
    if m > n {
        return false;
    }
    let mut i: usize = 0;
    while i <= n - m
        invariant
            n == text@.len(),
            m == needle@.len(),
            m <= n,
            i <= n - m + 1,
            forall|k: int| 0 <= k < i ==> !part_at(text@, needle@, k),
        decreases n - m + 1 - i,
    {
        let mut j: usize = 0;
        let mut ok = true;
        while j < m
            invariant
                n == text@.len(),
                m == needle@.len(),
                i + m <= n,
                j <= m,
                ok ==> forall|t: int| 0 <= t < j ==> lower_code(#[trigger] text@[i + t]) == needle@[t] as u32,
                !ok ==> !part_at(text@, needle@, i as int),
            decreases m - j,
        {
            if ok {
                let c = text.get_char(i + j);
                let code: u32 = if 'A' <= c && c <= 'Z' {
                    c as u32 + 32
                } else {
                    c as u32
                };
                if code != needle.get_char(j) as u32 {
                    ok = false;
                    assert(lower_code(text@[i + j]) != needle@[j as int] as u32);
                }
            }
            j = j + 1;
        }
        if ok {
            assert(part_at(text@, needle@, i as int));
            return true;
        }
        i = i + 1;
    }
    assert forall|k: int| 0 <= k && k + m <= n implies !part_at(text@, needle@, k) by {}
    false
}

/// The thumbnail style of layer `index` named `name`.
pub open spec fn thumb_variant(index: int, name: Seq<char>) -> Seq<char> {
    if contains_lowered(name, "ui"@) || contains_lowered(name, "object"@) {
        "ui"@
    } else if contains_lowered(name, "decor"@) || contains_lowered(name, "fringe"@)
        || contains_lowered(name, "over"@) {
        "decor"@
    } else if contains_lowered(name, "foreground"@) {
        "foreground"@
    } else if contains_lowered(name, "obstacle"@) || contains_lowered(name, "collision"@) {
        "obstacles"@
    } else if contains_lowered(name, "background"@) {
        "background"@
    } else if index == 0 {
        "ground"@
    } else {
        "foreground"@
    }
}

/// The thumbnail style the layer list shows for layer `index`, guessed
/// from its name.
pub fn layer_thumb_variant(index: usize, layer: &Layer) -> (s: &'static str)
    ensures
        s@ == thumb_variant(index as int, layer@.name),
{
    let name = layer.name.as_str();
    if contains_lowered_str(name, "ui") || contains_lowered_str(name, "object") {
        "ui"
    } else if contains_lowered_str(name, "decor") || contains_lowered_str(name, "fringe")
        || contains_lowered_str(name, "over") {
        "decor"
    } else if contains_lowered_str(name, "foreground") {
        "foreground"
    } else if contains_lowered_str(name, "obstacle") || contains_lowered_str(name, "collision") {
        "obstacles"
    } else if contains_lowered_str(name, "background") {
        "background"
    } else if index == 0 {
        "ground"
    } else {
        "foreground"
    }
}

/// An object of the document and the layer that holds it.
#[derive(Clone, Copy, Debug, PartialEq, Eq, Structural)]
pub struct ObjectSummary {
    pub layer_index: usize,
    pub object_id: u32,
}

/// The objects of one layer, in order.
pub open spec fn layer_objects(doc: Seq<LayerView>, i: int) -> Seq<ObjectSummary> {
    match doc[i].kind {
        LayerKindView::Object(ids) => ids.map_values(
            |id: u32| ObjectSummary { layer_index: i as usize, object_id: id },
        ),
        LayerKindView::Tile(_) => Seq::empty(),
    }
}

/// The objects of the first `n` layers, layer by layer.
pub open spec fn objects_upto(doc: Seq<LayerView>, n: int) -> Seq<ObjectSummary>
    decreases n,
{
    if n <= 0 {
        Seq::empty()
    } else {
        objects_upto(doc, n - 1) + layer_objects(doc, n - 1)
    }
}

/// Every object of the session's document with its layer, bottom layer
/// first.
pub fn collect_objects(session: &EditorSession) -> (r: Vec<ObjectSummary>)
    ensures
        r@ == objects_upto(session@.document, session@.document.len() as int),
{
    let doc = session.document();
    let mut out: Vec<ObjectSummary> = Vec::new();
    let mut i: usize = 0;
    while i < doc.layers.len()
        invariant
            doc@ == session@.document,
            i <= doc.layers.len(),
            out@ == objects_upto(doc@, i as int),
        decreases doc.layers.len() - i,
    {
        let ghost before = out@;
        match &doc.layers[i].kind {
            LayerKind::Object(o) => {
                let mut j: usize = 0;
                while j < o.object_ids.len()
                    invariant
                        doc@ == session@.document,
                        i < doc.layers.len(),
                        doc@[i as int].kind == LayerKindView::Object(o.object_ids@),
                        j <= o.object_ids.len(),
                        out@ == before + o.object_ids@.take(j as int).map_values(
                            |id: u32| ObjectSummary { layer_index: i, object_id: id },
                        ),
                    decreases o.object_ids.len() - j,
                {
                    out.push(ObjectSummary { layer_index: i, object_id: o.object_ids[j] });
                    proof {
                        assert(o.object_ids@.take(j + 1) =~= o.object_ids@.take(j as int).push(
                            o.object_ids@[j as int],
                        ));
                    }
                    j = j + 1;
                }
                proof {
                    assert(o.object_ids@.take(j as int) =~= o.object_ids@);
                }
            },
            LayerKind::Tile(_) => {},
        }
        proof {
            assert(out@ =~= objects_upto(doc@, i as int) + layer_objects(doc@, i as int));
        }
        i = i + 1;
    }
    out
}

} // verus!
