//! Annotation kinds and selection state as the editor's host-facing logic
//! sees them.

use vstd::prelude::*;

verus! {

/// Geometric shape of a `Shape` annotation.
#[derive(Debug, Clone, Copy, PartialEq, Eq, Structural)]
pub enum ShapeKind {
    Rect,
    Ellipse,
    Line,
    Arrow,
    Polygon,
    PolyLine,
}

/// The kind of an annotation (what a creation tool makes).
#[derive(Debug, Clone, Copy, PartialEq, Eq, Structural)]
pub enum AnnotationKind {
    Highlight,
    Underline,
    Strikeout,
    Squiggly,
    Freehand,
    Note,
    TextBox,
    Stamp,
    Watermark,
    Shape(ShapeKind),
}

/// The payload variant of an annotation, with what the handle strategy
/// reads of it: for shapes, the shape kind and how many explicit points it
/// carries.
#[derive(Debug, Clone, Copy, PartialEq, Eq, Structural)]
pub enum AnnotationPayloadKind {
    Shape { kind: ShapeKind, point_count: usize },
    Note,
    TextBox,
    Stamp,
    Watermark,
    Markup,
    Freehand,
}

/// Which annotations are selected (ids).
#[derive(Debug, Clone, PartialEq, Eq)]
pub enum AnnotationSelection {
    Empty,
    Single(String),
    Multi(Vec<String>),
}

/// The views of a sequence of ids.
pub open spec fn ids_view(ids: Seq<String>) -> Seq<Seq<char>> {
    ids.map_values(|id: String| id@)
}

/// The ids a selection holds, in order.
pub open spec fn selection_ids(sel: AnnotationSelection) -> Seq<Seq<char>> {
    match sel {
        AnnotationSelection::Empty => Seq::empty(),
        AnnotationSelection::Single(id) => seq![id@],
        AnnotationSelection::Multi(ids) => ids_view(ids@),
    }
}

/// The ids of all selected annotations, in order (what a "delete selected"
/// action deletes; its count is what it reports).
pub fn selected_ids(sel: &AnnotationSelection) -> (ids: Vec<String>)
    ensures
        ids_view(ids@) == selection_ids(*sel),
{
    match sel {
        AnnotationSelection::Empty => Vec::new(),
        AnnotationSelection::Single(id) => {
            let v = vec![id.clone()];
            proof {
                assert(ids_view(v@) =~= seq![id@]);
            }
            v
        },
        AnnotationSelection::Multi(ids) => {
            let mut v: Vec<String> = Vec::new();
            let mut i: usize = 0;
            while i < ids.len()
                invariant
                    i <= ids@.len(),
                    ids_view(v@) == ids_view(ids@.take(i as int)),
                decreases ids@.len() - i,
            {
                let ghost prev = v@;
                let c = ids[i].clone();
                v.push(c);
                proof {
                    assert(v@ == prev.push(c));
                    assert(ids@.take(i + 1) =~= ids@.take(i as int).push(ids@[i as int]));
                    assert(ids_view(v@) =~= ids_view(prev).push(c@));
                    assert(ids_view(v@) =~= ids_view(ids@.take(i + 1)));
                }
                i += 1;
            }
            proof {
                assert(ids@.take(ids@.len() as int) =~= ids@);
            }
            v
        },
    }
}

/// The shaped glyph whose pen position places a text annotation's caret at
/// char `offset`: the glyph at `offset`; past the end of the run, the last
/// glyph; in an empty run, none (the caret sits at the run's start).
pub fn caret_glyph_index(offset: usize, glyph_count: usize) -> (g: Option<usize>)
    ensures
        offset < glyph_count ==> g == Some(offset),
        offset >= glyph_count && glyph_count > 0 ==> g == Some((glyph_count - 1) as usize),
        glyph_count == 0 ==> g is None,
{
    if offset < glyph_count {
        Some(offset)
    } else if glyph_count > 0 {
        Some(glyph_count - 1)
    } else {
        None
    }
}

} // verus!
