//! The edited map document: an ordered list of tile and object layers.

use vstd::prelude::*;
use crate::layer::{EditorError, TileLayer, TileLayerView};

verus! {

/// An object layer; the editor logic only needs the ids of its objects.
#[derive(Debug)]
pub struct ObjectLayer {
    pub object_ids: Vec<u32>,
}

/// What a layer holds.
#[derive(Debug)]
pub enum LayerKind {
    Tile(TileLayer),
    Object(ObjectLayer),
}

/// One layer of the map.
#[derive(Debug)]
pub struct Layer {
    pub name: String,
    pub locked: bool,
    pub visible: bool,
    pub kind: LayerKind,
}

/// The mathematical content of a layer's payload.
pub enum LayerKindView {
    Tile(TileLayerView),
    Object(Seq<u32>),
}

/// The mathematical content of a layer.
pub struct LayerView {
    pub name: Seq<char>,
    pub locked: bool,
    pub visible: bool,
    pub kind: LayerKindView,
}

impl View for Layer {
    type V = LayerView;

    open spec fn view(&self) -> LayerView {
        LayerView {
            name: self.name@,
            locked: self.locked,
            visible: self.visible,
            kind: match self.kind {
                LayerKind::Tile(t) => LayerKindView::Tile(t@),
                LayerKind::Object(o) => LayerKindView::Object(o.object_ids@),
            },
        }
    }
}

/// A tileset of the map: its tiles have the global ids `first_gid` up to
/// `first_gid + tile_count - 1`.
#[derive(Debug)]
pub struct Tileset {
    pub name: String,
    pub first_gid: u32,
    pub tile_count: u32,
}

/// The mathematical content of a tileset.
pub struct TilesetView {
    pub name: Seq<char>,
    pub first_gid: u32,
    pub tile_count: u32,
}

impl View for Tileset {
    type V = TilesetView;

    open spec fn view(&self) -> TilesetView {
        TilesetView { name: self.name@, first_gid: self.first_gid, tile_count: self.tile_count }
    }
}

/// The map being edited: its size in tiles, its layers from bottom to
/// top, and its tilesets.
#[derive(Debug)]
pub struct Document {
    pub width: u32,
    pub height: u32,
    pub layers: Vec<Layer>,
    pub tilesets: Vec<Tileset>,
}

/// What every document of a session shares: the map's size in tiles and
/// its tilesets.
pub struct MapFrame {
    pub width: u32,
    pub height: u32,
    pub tilesets: Seq<TilesetView>,
}

impl Document {
    /// The map's tilesets, in order.
    pub open spec fn tileset_views(&self) -> Seq<TilesetView> {
        self.tilesets@.map_values(|t: Tileset| t@)
    }

    /// The map's size and tilesets.
    pub open spec fn frame(&self) -> MapFrame {
        MapFrame { width: self.width, height: self.height, tilesets: self.tileset_views() }
    }
}

/// A document is viewed as its layers; its size and tilesets, which no
/// edit changes, are [`Document::frame`], and a session's view carries
/// them alongside.
impl View for Document {
    type V = Seq<LayerView>;

    open spec fn view(&self) -> Seq<LayerView> {
        self.layers@.map_values(|l: Layer| l@)
    }
}

/// Every tile layer of the document is well formed.
pub open spec fn doc_wf(doc: Seq<LayerView>) -> bool {
    forall|i: int|
        0 <= i < doc.len() ==> match #[trigger] doc[i].kind {
            LayerKindView::Tile(t) => t.wf(),
            LayerKindView::Object(_) => true,
        }
}

/// Whether layer `i` can take a tile edit, and why not.
pub open spec fn tile_layer_status(doc: Seq<LayerView>, i: int) -> Result<(), EditorError> {
    if !(0 <= i < doc.len()) {
        Err(EditorError::UnknownLayer(i as usize))
    } else if doc[i].locked {
        Err(EditorError::LayerLocked)
    } else {
        match doc[i].kind {
            LayerKindView::Tile(_) => Ok(()),
            LayerKindView::Object(_) => Err(EditorError::NotTileLayer),
        }
    }
}

/// The tiles of layer `i` (meaningful when it is a tile layer).
pub open spec fn tile_view(doc: Seq<LayerView>, i: int) -> TileLayerView {
    match doc[i].kind {
        LayerKindView::Tile(t) => t,
        LayerKindView::Object(_) => TileLayerView { width: 0, height: 0, tiles: Seq::empty() },
    }
}

/// Whether layer `i` exists and holds tiles (locked or not).
pub open spec fn is_tile_layer(doc: Seq<LayerView>, i: int) -> bool {
    0 <= i < doc.len() && doc[i].kind is Tile
}

/// The document with the tiles of layer `i` replaced.
pub open spec fn with_tiles(doc: Seq<LayerView>, i: int, t: TileLayerView) -> Seq<LayerView> {
    doc.update(
        i,
        LayerView { name: doc[i].name, locked: doc[i].locked, visible: doc[i].visible, kind: LayerKindView::Tile(t) },
    )
}

impl TileLayer {
    /// An independent copy of the layer.
    pub fn duplicate(&self) -> (r: TileLayer)
        ensures
            r@ == self@,
    {
        let tiles = self.tiles.clone();
        proof {
            assert(tiles@ =~= self.tiles@);
        }
        TileLayer { width: self.width, height: self.height, tiles }
    }
}

impl Layer {
    /// An independent copy of the layer.
    pub fn duplicate(&self) -> (r: Layer)
        ensures
            r@ == self@,
    {
        let kind = match &self.kind {
            LayerKind::Tile(t) => LayerKind::Tile(t.duplicate()),
            LayerKind::Object(o) => {
                let ids = o.object_ids.clone();
                proof {
                    assert(ids@ =~= o.object_ids@);
                }
                LayerKind::Object(ObjectLayer { object_ids: ids })
            },
        };
        Layer { name: self.name.clone(), locked: self.locked, visible: self.visible, kind }
    }

    /// Whether the layer holds tiles.
    pub fn is_tile(&self) -> (b: bool)
        ensures
            b == self@.kind is Tile,
    {
        match &self.kind {
            LayerKind::Tile(_) => true,
            LayerKind::Object(_) => false,
        }
    }
}

impl Document {
    /// An independent copy of the document.
    pub fn duplicate(&self) -> (r: Document)
        ensures
            r@ == self@,
            r.tileset_views() == self.tileset_views(),
            r.width == self.width,
            r.height == self.height,
    {
        let mut layers: Vec<Layer> = Vec::new();
        let mut i: usize = 0;
        while i < self.layers.len()
            invariant
                i <= self.layers@.len(),
                layers@.len() == i,
                forall|k: int| 0 <= k < i ==> #[trigger] layers@[k]@ == self.layers@[k]@,
            decreases self.layers@.len() - i,
        {
            layers.push(self.layers[i].duplicate());
            i = i + 1;
        }
        let mut tilesets: Vec<Tileset> = Vec::new();
        let mut k: usize = 0;
        while k < self.tilesets.len()
            invariant
                k <= self.tilesets@.len(),
                tilesets@.len() == k,
                forall|j: int| 0 <= j < k ==> #[trigger] tilesets@[j]@ == self.tilesets@[j]@,
            decreases self.tilesets@.len() - k,
        {
            let t = &self.tilesets[k];
            tilesets.push(Tileset { name: t.name.clone(), first_gid: t.first_gid, tile_count: t.tile_count });
            k = k + 1;
        }
        let r = Document { width: self.width, height: self.height, layers, tilesets };
        assert(r.tileset_views() =~= self.tileset_views());
        assert(r@ =~= self@);
        r
    }

    /// Whether layer `layer_index` can take a tile edit.
    pub fn tile_layer_status(&self, layer_index: usize) -> (r: Result<(), EditorError>)
        ensures
            r == tile_layer_status(self@, layer_index as int),
    {
        if layer_index >= self.layers.len() {
            return Err(EditorError::UnknownLayer(layer_index));
        }
        let layer = &self.layers[layer_index];
        if layer.locked {
            return Err(EditorError::LayerLocked);
        }
        match &layer.kind {
            LayerKind::Tile(_) => Ok(()),
            LayerKind::Object(_) => Err(EditorError::NotTileLayer),
        }
    }

    /// The tile layer at `layer_index`, when there is one.
    pub fn tile_layer(&self, layer_index: usize) -> (r: Option<&TileLayer>)
        ensures
            match r {
                Some(t) => is_tile_layer(self@, layer_index as int) && t@ == tile_view(self@, layer_index as int),
                None => !is_tile_layer(self@, layer_index as int),
            },
    {
        if layer_index >= self.layers.len() {
            return None;
        }
        match &self.layers[layer_index].kind {
            LayerKind::Tile(t) => Some(t),
            LayerKind::Object(_) => None,
        }
    }
}

} // verus!
