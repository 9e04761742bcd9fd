use std::sync::Arc;

use rofd::annotation::{selected_ids, AnnotationSelection};
use rofd::composite::RenderEngine;
use rofd::focus::{FocusChange, FocusState};

#[test]
fn render_engine_shares_font_bytes() {
    let bytes = Arc::new(vec![1u8, 2, 3]);
    let engine = RenderEngine::new(bytes.clone());
    assert!(Arc::ptr_eq(&engine.default_font_bytes, &bytes));
    assert_eq!(*engine.default_font_bytes, vec![1u8, 2, 3]);
}

#[test]
fn widget_starts_unfocused() {
    let f = FocusState::new();
    assert!(!f.component_focused);
    assert!(!f.widget_focused);
    assert!(f.window_focused);
}

#[test]
fn focus_transitions_are_forwarded_once() {
    let mut f = FocusState::new();
    assert_eq!(f.set_widget_focus(true), Some(FocusChange::Gained));
    assert!(f.component_focused && f.blink_active());
    assert_eq!(f.set_widget_focus(true), None);
    assert_eq!(f.set_window_focus(false), Some(FocusChange::Lost));
    assert!(!f.blink_active());
    assert_eq!(f.set_widget_focus(false), None);
    assert_eq!(f.set_window_focus(true), None);
    assert_eq!(f.set_widget_focus(true), Some(FocusChange::Gained));
    assert_eq!(f.ime_disabled(), vec![FocusChange::Lost, FocusChange::Gained]);
    assert!(f.component_focused);
    f.set_window_focus(false);
    assert_eq!(f.ime_disabled(), vec![FocusChange::Lost]);
    assert!(!f.component_focused);
}

#[test]
fn selected_ids_of_each_selection() {
    assert!(selected_ids(&AnnotationSelection::Empty).is_empty());
    assert_eq!(selected_ids(&AnnotationSelection::Single("a".into())), vec!["a".to_string()]);
    let ids = vec!["x".to_string(), "y".to_string()];
    assert_eq!(selected_ids(&AnnotationSelection::Multi(ids.clone())), ids);
}
