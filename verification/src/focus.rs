//! Effective-focus tracking for the embedded editor: the editor component is
//! focused exactly when the widget holds keyboard focus and its window is
//! focused, and it hears of every transition once.

use vstd::prelude::*;

verus! {

/// A focus transition to forward to the editor component.
#[derive(Debug, Clone, Copy, PartialEq, Eq, Structural)]
pub enum FocusChange {
    Gained,
    Lost,
}

/// Focus mirrors of a widget hosting the editor.
#[derive(Debug, Clone, Copy, PartialEq, Eq, Structural)]
pub struct FocusState {
    /// The widget has keyboard focus.
    pub widget_focused: bool,
    /// The window is focused (focused at birth).
    pub window_focused: bool,
    /// What the component was last told: transitions only.
    pub component_focused: bool,
}

impl FocusState {
    /// Effective focus: widget keyboard focus and window focus.
    pub open spec fn effective(self) -> bool {
        self.widget_focused && self.window_focused
    }

    /// The component's focus mirrors the effective focus.
    pub open spec fn consistent(self) -> bool {
        self.component_focused == self.effective()
    }

    /// The state of a freshly built widget: unfocused in a focused window,
    /// the component told it lost focus (no caret until the first click).
    pub fn new() -> (s: Self)
        ensures
            !s.widget_focused,
            s.window_focused,
            !s.component_focused,
            s.consistent(),
    {
        FocusState { widget_focused: false, window_focused: true, component_focused: false }
    }

    /// Whether the caret blink loop should run (widget and window focused).
    pub fn blink_active(&self) -> (b: bool)
        ensures
            b == self.effective(),
    {
        self.widget_focused && self.window_focused
    }

    /// Recompute effective focus; on a transition, update the mirror and
    /// return the change to forward (a gain also restarts the caret blink).
    pub fn refresh(&mut self) -> (c: Option<FocusChange>)
        ensures
            final(self).widget_focused == old(self).widget_focused,
            final(self).window_focused == old(self).window_focused,
            final(self).consistent(),
            c == if old(self).component_focused == old(self).effective() {
                None
            } else if old(self).effective() {
                Some(FocusChange::Gained)
            } else {
                Some(FocusChange::Lost)
            },
    {
        let effective = self.widget_focused && self.window_focused;
        if effective != self.component_focused {
            self.component_focused = effective;
            if effective {
                Some(FocusChange::Gained)
            } else {
                Some(FocusChange::Lost)
            }
        } else {
            None
        }
    }

    /// The widget gained or lost keyboard focus.
    pub fn set_widget_focus(&mut self, focused: bool) -> (c: Option<FocusChange>)
        ensures
            final(self).widget_focused == focused,
            final(self).window_focused == old(self).window_focused,
            final(self).consistent(),
            c == if old(self).component_focused == (focused && old(self).window_focused) {
                None
            } else if focused && old(self).window_focused {
                Some(FocusChange::Gained)
            } else {
                Some(FocusChange::Lost)
            },
    {
        self.widget_focused = focused;
        self.refresh()
    }

    /// The window gained or lost focus.
    pub fn set_window_focus(&mut self, focused: bool) -> (c: Option<FocusChange>)
        ensures
            final(self).window_focused == focused,
            final(self).widget_focused == old(self).widget_focused,
            final(self).consistent(),
            c == if old(self).component_focused == (old(self).widget_focused && focused) {
                None
            } else if old(self).widget_focused && focused {
                Some(FocusChange::Gained)
            } else {
                Some(FocusChange::Lost)
            },
    {
        self.window_focused = focused;
        self.refresh()
    }

    /// The IME session was disabled: tell the component it lost focus (so
    /// it force-commits any preedit), then restore focus when the widget and
    /// window are still focused.
    pub fn ime_disabled(&mut self) -> (cs: Vec<FocusChange>)
        ensures
            final(self).widget_focused == old(self).widget_focused,
            final(self).window_focused == old(self).window_focused,
            final(self).consistent(),
            cs@ == if old(self).effective() {
                seq![FocusChange::Lost, FocusChange::Gained]
            } else {
                seq![FocusChange::Lost]
            },
    {
        let mut cs = vec![FocusChange::Lost];
        self.component_focused = false;
        if self.widget_focused && self.window_focused {
            cs.push(FocusChange::Gained);
            self.component_focused = true;
        }
        proof {
            if old(self).effective() {
                assert(cs@ =~= seq![FocusChange::Lost, FocusChange::Gained]);
            } else {
                assert(cs@ =~= seq![FocusChange::Lost]);
            }
        }
        cs
    }
}

} // verus!
