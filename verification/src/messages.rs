//! The text the status line shows for each status.

use vstd::prelude::*;
use vstd::string::*;
use crate::editor::Status;
use crate::layer::EditorError;
use crate::shape::ShapeFillMode;
use crate::workspace::{decimal, decimal_text};

verus! {

/// The decimal digits of `i`, with a leading minus sign when negative.
pub open spec fn signed_decimal(i: int) -> Seq<char> {
    if i < 0 {
        "-"@ + decimal((-i) as nat)
    } else {
        decimal(i as nat)
    }
}

/// The text describing why an edit was refused.
pub open spec fn error_text(e: EditorError) -> Seq<char> {
    match e {
        EditorError::UnknownLayer(i) => "layer "@ + decimal(i as nat) + " does not exist"@,
        EditorError::LayerLocked => "layer is locked"@,
        EditorError::NotTileLayer => "layer is not a tile layer"@,
        EditorError::OutOfBounds(x, y) => "cell ("@ + decimal(x as nat) + ", "@ + decimal(y as nat)
            + ") is outside the layer"@,
        EditorError::NotObjectLayer => "layer is not an object layer"@,
        EditorError::ObjectNotFound(id) => "object "@ + decimal(id as nat) + " not found"@,
    }
}

/// `w×h`.
pub open spec fn size_text(w: u32, h: u32) -> Seq<char> {
    decimal(w as nat) + "\u{d7}"@ + decimal(h as nat)
}

/// The name of a shape-fill mode.
pub open spec fn shape_label(mode: ShapeFillMode) -> Seq<char> {
    match mode {
        ShapeFillMode::Rectangle => "Rectangle"@,
        ShapeFillMode::Ellipse => "Ellipse"@,
    }
}

/// The text of a status.
pub open spec fn status_text(s: Status) -> Seq<char> {
    match s {
        Status::Welcome => "Welcome to Taled"@,
        Status::NoMapLoaded => "No map loaded."@,
        Status::EditFailed(e) => "Edit failed: "@ + error_text(e),
        Status::SelectedRegion(w, h) => "Selected "@ + size_text(w, h) + " region."@,
        Status::MagicWandSelected(n) => "Magic Wand selected "@ + decimal(n as nat) + " tiles."@,
        Status::SelectedSameTiles(n) => "Selected "@ + decimal(n as nat) + " tiles of same type."@,
        Status::ShapeFilled(mode, n) => shape_label(mode) + " filled "@ + decimal(n as nat) + " tiles."@,
        Status::CopiedAtCurrentPosition(w, h) => "Copied "@ + size_text(w, h) + " at current position."@,
        Status::CopiedRegion(w, h) => "Copied region "@ + size_text(w, h) + ". Drag to place."@,
        Status::AlreadyCutMode => "Already in cut-move mode."@,
        Status::CutConverted(w, h) => "Cut "@ + size_text(w, h) + ". Drag to move, tap Done to place."@,
        Status::CutFailed(e) => "Cut failed: "@ + error_text(e),
        Status::CutRegion(w, h) => "Cut region "@ + size_text(w, h) + ". Drag to move."@,
        Status::SelectTileRegionFirst => "Select a tile region first."@,
        Status::ClearedSelectedRegion => "Cleared selected region."@,
        Status::DeleteFailed(e) => "Delete failed: "@ + error_text(e),
        Status::NothingToPlace => "Nothing to place."@,
        Status::MoveSelectionBeforePlacing => "Move the selection before placing it."@,
        Status::CanceledLayerChanged => "Canceled: active layer changed."@,
        Status::PlacedSelection(x, y) => "Placed selection at ("@ + signed_decimal(x as int) + ", "@
            + signed_decimal(y as int) + ")."@,
        Status::PlaceFailed(e) => "Place failed: "@ + error_text(e),
        Status::CancelRestoreFailed => "Cancel failed: could not restore cut region."@,
        Status::SelectionCleared => "Selection cleared."@,
        Status::Flipped(x_axis) => if x_axis {
            "Flipped X."@
        } else {
            "Flipped Y."@
        },
        Status::Rotated => "Rotated 90\u{b0} CW."@,
        Status::SelectRegionFirst => "Select a region first."@,
        Status::FlipFailed(e) => "Flip failed: "@ + error_text(e),
        Status::RotateFailed(e) => "Rotate failed: "@ + error_text(e),
        Status::DeletedSourceAndExited => "Deleted source and exited move mode."@,
        Status::UndoSelection => "Undo selection."@,
        Status::UndoApplied => "Undo applied."@,
        Status::NothingToUndo => "Nothing to undo."@,
        Status::RedoSelection => "Redo selection."@,
        Status::RedoApplied => "Redo applied."@,
        Status::NothingToRedo => "Nothing to redo."@,
        Status::SelectionTooLarge => "Selection is too large."@,
        Status::DeleteObjectFailed(e) => "Delete failed: "@ + error_text(e),
    }
}

/// Appends the decimal digits of `n`.
fn push_decimal(s: &mut String, n: u64)
    ensures
        final(s)@ == old(s)@ + decimal(n as nat),
{
    let d = decimal_text(n);
    s.append(d.as_str());
}

/// Appends the decimal digits of `i`, with a minus sign when negative.
fn push_signed(s: &mut String, i: i32)
    ensures
        final(s)@ == old(s)@ + signed_decimal(i as int),
{
    if i < 0 {
        s.append("-");
        let ghost mid = s@;
        let m: u64 = (-(i as i64)) as u64;
        push_decimal(s, m);
        proof {
            reveal_strlit("-");
            assert(s@ =~= old(s)@ + signed_decimal(i as int));
        }
    } else {
        push_decimal(s, i as u64);
    }
}

/// Appends `w×h`.
fn push_size(s: &mut String, w: u32, h: u32)
    ensures
        final(s)@ == old(s)@ + size_text(w, h),
{
    push_decimal(s, w as u64);
    s.append("\u{d7}");
    push_decimal(s, h as u64);
    proof {
        assert(s@ =~= old(s)@ + size_text(w, h));
    }
}

/// The text describing why an edit was refused.
pub fn error_message(e: EditorError) -> (t: String)
    ensures
        t@ == error_text(e),
{
    match e {
        EditorError::UnknownLayer(i) => {
            let mut t = String::from_str("layer ");
            push_decimal(&mut t, i as u64);
            t.append(" does not exist");
            t
        },
        EditorError::LayerLocked => String::from_str("layer is locked"),
        EditorError::NotTileLayer => String::from_str("layer is not a tile layer"),
        EditorError::OutOfBounds(x, y) => {
            let mut t = String::from_str("cell (");
            push_decimal(&mut t, x as u64);
            t.append(", ");
            push_decimal(&mut t, y as u64);
            t.append(") is outside the layer");
            t
        },
        EditorError::NotObjectLayer => String::from_str("layer is not an object layer"),
        EditorError::ObjectNotFound(id) => {
            let mut t = String::from_str("object ");
            push_decimal(&mut t, id as u64);
            t.append(" not found");
            t
        },
    }
}

/// `prefix` followed by the text of `e`.
fn failure(prefix: &str, e: EditorError) -> (t: String)
    ensures
        t@ == prefix@ + error_text(e),
{
    let mut t = String::from_str(prefix);
    let m = error_message(e);
    t.append(m.as_str());
    t
}

/// `prefix`, the size `w×h`, then `suffix`.
fn sized(prefix: &str, w: u32, h: u32, suffix: &str) -> (t: String)
    ensures
        t@ == prefix@ + size_text(w, h) + suffix@,
{
    let mut t = String::from_str(prefix);
    push_size(&mut t, w, h);
    t.append(suffix);
    t
}

/// `prefix`, the count `n`, then `suffix`.
fn counted(prefix: &str, n: usize, suffix: &str) -> (t: String)
    ensures
        t@ == prefix@ + decimal(n as nat) + suffix@,
{
    let mut t = String::from_str(prefix);
    push_decimal(&mut t, n as u64);
    t.append(suffix);
    t
}

impl Status {
    /// The text the status line shows.
    pub fn message(&self) -> (t: String)
        ensures
            t@ == status_text(*self),
    {
        match *self {
            Status::Welcome => String::from_str("Welcome to Taled"),
            Status::NoMapLoaded => String::from_str("No map loaded."),
            Status::EditFailed(e) => failure("Edit failed: ", e),
            Status::SelectedRegion(w, h) => sized("Selected ", w, h, " region."),
            Status::MagicWandSelected(n) => counted("Magic Wand selected ", n, " tiles."),
            Status::SelectedSameTiles(n) => counted("Selected ", n, " tiles of same type."),
            Status::ShapeFilled(mode, n) => {
                let label = match mode {
                    ShapeFillMode::Rectangle => "Rectangle",
                    ShapeFillMode::Ellipse => "Ellipse",
                };
                let mut t = String::from_str(label);
                t.append(" filled ");
                push_decimal(&mut t, n as u64);
                t.append(" tiles.");
                t
            },
            Status::CopiedAtCurrentPosition(w, h) => sized("Copied ", w, h, " at current position."),
            Status::CopiedRegion(w, h) => sized("Copied region ", w, h, ". Drag to place."),
            Status::AlreadyCutMode => String::from_str("Already in cut-move mode."),
            Status::CutConverted(w, h) => sized("Cut ", w, h, ". Drag to move, tap Done to place."),
            Status::CutFailed(e) => failure("Cut failed: ", e),
            Status::CutRegion(w, h) => sized("Cut region ", w, h, ". Drag to move."),
            Status::SelectTileRegionFirst => String::from_str("Select a tile region first."),
            Status::ClearedSelectedRegion => String::from_str("Cleared selected region."),
            Status::DeleteFailed(e) => failure("Delete failed: ", e),
            Status::NothingToPlace => String::from_str("Nothing to place."),
            Status::MoveSelectionBeforePlacing => String::from_str("Move the selection before placing it."),
            Status::CanceledLayerChanged => String::from_str("Canceled: active layer changed."),
            Status::PlacedSelection(x, y) => {
                let mut t = String::from_str("Placed selection at (");
                push_signed(&mut t, x);
                t.append(", ");
                push_signed(&mut t, y);
                t.append(").");
                t
            },
            Status::PlaceFailed(e) => failure("Place failed: ", e),
            Status::CancelRestoreFailed => String::from_str("Cancel failed: could not restore cut region."),
            Status::SelectionCleared => String::from_str("Selection cleared."),
            Status::Flipped(x_axis) => if x_axis {
                String::from_str("Flipped X.")
            } else {
                String::from_str("Flipped Y.")
            },
            Status::Rotated => String::from_str("Rotated 90\u{b0} CW."),
            Status::SelectRegionFirst => String::from_str("Select a region first."),
            Status::FlipFailed(e) => failure("Flip failed: ", e),
            Status::RotateFailed(e) => failure("Rotate failed: ", e),
            Status::DeletedSourceAndExited => String::from_str("Deleted source and exited move mode."),
            Status::UndoSelection => String::from_str("Undo selection."),
            Status::UndoApplied => String::from_str("Undo applied."),
            Status::NothingToUndo => String::from_str("Nothing to undo."),
            Status::RedoSelection => String::from_str("Redo selection."),
            Status::RedoApplied => String::from_str("Redo applied."),
            Status::NothingToRedo => String::from_str("Nothing to redo."),
            Status::SelectionTooLarge => String::from_str("Selection is too large."),
            Status::DeleteObjectFailed(e) => failure("Delete failed: ", e),
        }
    }
}

} // verus!
