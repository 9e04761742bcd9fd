use rofd::annotation::caret_glyph_index;
use rofd::hit_test::{resolve_hit, HandlePos, HitTarget, PageProbe};

fn page(id: &str, contains: bool, anns: &[(&str, bool)]) -> PageProbe {
    PageProbe {
        page_id: id.to_string(),
        contains,
        annotations: anns.iter().map(|(a, h)| (a.to_string(), *h)).collect(),
    }
}

#[test]
fn resolve_hit_handle_wins_over_everything() {
    let pages = vec![page("P0", true, &[("A1", true)])];
    let t = resolve_hit(Some(("A1".to_string(), HandlePos::Se)), &pages);
    assert_eq!(t, HitTarget::Handle("A1".to_string(), HandlePos::Se));
}

#[test]
fn resolve_hit_topmost_annotation_wins() {
    let pages = vec![page("P0", true, &[("A1", true), ("A2", true), ("A3", false)])];
    assert_eq!(resolve_hit(None, &pages), HitTarget::Annotation("A2".to_string()));
}

#[test]
fn resolve_hit_page_body_when_no_annotation_hit() {
    let pages = vec![page("P0", true, &[("A1", false)])];
    assert_eq!(resolve_hit(None, &pages), HitTarget::Page("P0".to_string()));
}

#[test]
fn resolve_hit_first_containing_page() {
    let pages = vec![
        page("P0", false, &[]),
        page("P1", true, &[]),
        page("P2", true, &[("A9", true)]),
    ];
    assert_eq!(resolve_hit(None, &pages), HitTarget::Page("P1".to_string()));
}

#[test]
fn resolve_hit_desk_when_no_page_holds_point() {
    let pages = vec![page("P0", false, &[]), page("P1", false, &[])];
    assert_eq!(resolve_hit(None, &pages), HitTarget::Empty);
    assert_eq!(resolve_hit(None, &Vec::new()), HitTarget::Empty);
}

#[test]
fn caret_glyph_index_clamps_to_last_glyph() {
    assert_eq!(caret_glyph_index(2, 5), Some(2));
    assert_eq!(caret_glyph_index(5, 5), Some(4));
    assert_eq!(caret_glyph_index(9, 5), Some(4));
    assert_eq!(caret_glyph_index(0, 0), None);
}
