//! Selection handle strategy: which handles a selected annotation exposes,
//! in hit-priority order.
//!
//! | payload                        | handles                     |
//! |--------------------------------|-----------------------------|
//! | Shape(Rect), Note/TextBox/...  | 8: 4 corners + 4 edges      |
//! | Shape(Ellipse)                 | 4 edge midpoints (N/S/E/W)  |
//! | Shape(Line/Arrow)              | 2 endpoints (Vertex 0/1)    |
//! | Shape(Polygon/PolyLine)        | one Vertex per point        |
//! | Freehand, Markup               | none (bbox frame only)      |

use vstd::prelude::*;

use crate::annotation::{AnnotationPayloadKind, ShapeKind};
use crate::hit_test::HandlePos;

verus! {

/// The 4 corners then the 4 edge midpoints.
pub open spec fn eight_handles() -> Seq<HandlePos> {
    seq![
        HandlePos::Nw,
        HandlePos::Ne,
        HandlePos::Sw,
        HandlePos::Se,
        HandlePos::N,
        HandlePos::S,
        HandlePos::E,
        HandlePos::W,
    ]
}

/// The handles exposed by an annotation with this payload.
pub open spec fn handles_for(p: AnnotationPayloadKind) -> Seq<HandlePos> {
    match p {
        AnnotationPayloadKind::Shape { kind, point_count } => match kind {
            ShapeKind::Rect => eight_handles(),
            ShapeKind::Ellipse => seq![HandlePos::N, HandlePos::S, HandlePos::E, HandlePos::W],
            ShapeKind::Line | ShapeKind::Arrow => seq![HandlePos::Vertex(0), HandlePos::Vertex(1)],
            ShapeKind::Polygon | ShapeKind::PolyLine => Seq::new(
                point_count as nat,
                |i: int| HandlePos::Vertex(i as usize),
            ),
        },
        AnnotationPayloadKind::Note
        | AnnotationPayloadKind::TextBox
        | AnnotationPayloadKind::Stamp
        | AnnotationPayloadKind::Watermark => eight_handles(),
        AnnotationPayloadKind::Markup | AnnotationPayloadKind::Freehand => Seq::empty(),
    }
}

/// The rect-like handle set: 4 corners before 4 edge midpoints.
pub fn eight() -> (v: Vec<HandlePos>)
    ensures
        v@ == eight_handles(),
{
    let v = vec![
        HandlePos::Nw,
        HandlePos::Ne,
        HandlePos::Sw,
        HandlePos::Se,
        HandlePos::N,
        HandlePos::S,
        HandlePos::E,
        HandlePos::W,
    ];
    proof {
        assert(v@ =~= eight_handles());
    }
    v
}

/// The selection handles an annotation exposes, in hit-priority order
/// (corners before edges for rect-like sets).
pub fn annotation_handles(payload: &AnnotationPayloadKind) -> (v: Vec<HandlePos>)
    ensures
        v@ == handles_for(*payload),
{
    match payload {
        AnnotationPayloadKind::Shape { kind, point_count } => match kind {
            ShapeKind::Rect => eight(),
            ShapeKind::Ellipse => {
                let v = vec![HandlePos::N, HandlePos::S, HandlePos::E, HandlePos::W];
                proof {
                    assert(v@ =~= handles_for(*payload));
                }
                v
            },
            // Endpoints even when the shape carries no points: their centers
            // fall back to the rect diagonal.
            ShapeKind::Line | ShapeKind::Arrow => {
                let v = vec![HandlePos::Vertex(0), HandlePos::Vertex(1)];
                proof {
                    assert(v@ =~= handles_for(*payload));
                }
                v
            },
            ShapeKind::Polygon | ShapeKind::PolyLine => {
                let mut v: Vec<HandlePos> = Vec::new();
                let mut i: usize = 0;
                while i < *point_count
                    invariant
                        i <= *point_count,
                        v@ == Seq::new(i as nat, |j: int| HandlePos::Vertex(j as usize)),
                    decreases *point_count - i,
                {
                    v.push(HandlePos::Vertex(i));
                    proof {
                        assert(v@ =~= Seq::new((i + 1) as nat, |j: int| HandlePos::Vertex(j as usize)));
                    }
                    i += 1;
                }
                v
            },
        },
        AnnotationPayloadKind::Note
        | AnnotationPayloadKind::TextBox
        | AnnotationPayloadKind::Stamp
        | AnnotationPayloadKind::Watermark => eight(),
        AnnotationPayloadKind::Markup | AnnotationPayloadKind::Freehand => Vec::new(),
    }
}

/// Handle sets never repeat a handle: each handle of an annotation is a
/// distinct grip.
pub proof fn lemma_handles_distinct(p: AnnotationPayloadKind)
    ensures
        forall|i: int, j: int|
            0 <= i < j < handles_for(p).len() ==> handles_for(p)[i] != handles_for(p)[j],
{
}

} // verus!
