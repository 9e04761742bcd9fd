use rofd::annotation::{AnnotationPayloadKind, ShapeKind};
use rofd::handles::{annotation_handles, eight};
use rofd::hit_test::{HandlePos, HitTarget};

const EIGHT: [HandlePos; 8] = [
    HandlePos::Nw,
    HandlePos::Ne,
    HandlePos::Sw,
    HandlePos::Se,
    HandlePos::N,
    HandlePos::S,
    HandlePos::E,
    HandlePos::W,
];

fn shape(kind: ShapeKind, point_count: usize) -> AnnotationPayloadKind {
    AnnotationPayloadKind::Shape { kind, point_count }
}

#[test]
fn handle_sets_follow_wps_strategy() {
    // Rect and rect-bearing payloads (Note etc.) = 8; Ellipse = 4 edge midpoints.
    assert_eq!(annotation_handles(&shape(ShapeKind::Rect, 0)), EIGHT.to_vec());
    assert_eq!(
        annotation_handles(&shape(ShapeKind::Ellipse, 0)),
        vec![HandlePos::N, HandlePos::S, HandlePos::E, HandlePos::W]
    );
    // Line/Arrow = 2 endpoints (exposed even when points is empty).
    for kind in [ShapeKind::Line, ShapeKind::Arrow] {
        assert_eq!(
            annotation_handles(&shape(kind, 0)),
            vec![HandlePos::Vertex(0), HandlePos::Vertex(1)]
        );
    }
    // Polygon/PolyLine = one per vertex.
    for kind in [ShapeKind::Polygon, ShapeKind::PolyLine] {
        assert_eq!(
            annotation_handles(&shape(kind, 3)),
            vec![HandlePos::Vertex(0), HandlePos::Vertex(1), HandlePos::Vertex(2)]
        );
    }
}

#[test]
fn markup_and_freehand_have_no_handles() {
    assert!(annotation_handles(&AnnotationPayloadKind::Markup).is_empty());
    assert!(annotation_handles(&AnnotationPayloadKind::Freehand).is_empty());
}

#[test]
fn rect_bearing_payloads_expose_eight() {
    for p in [
        AnnotationPayloadKind::Note,
        AnnotationPayloadKind::TextBox,
        AnnotationPayloadKind::Stamp,
        AnnotationPayloadKind::Watermark,
    ] {
        assert_eq!(annotation_handles(&p), EIGHT.to_vec());
    }
    assert_eq!(eight(), EIGHT.to_vec());
    assert!(annotation_handles(&shape(ShapeKind::Polygon, 0)).is_empty());
}

#[test]
fn hit_target_eq_and_debug() {
    let a = HitTarget::Page("P0".to_string());
    let b = HitTarget::Page("P0".to_string());
    assert_eq!(a, b);
    assert_ne!(a, HitTarget::Empty);
    let s = format!("{a:?}");
    assert!(s.contains("Page"));
}
