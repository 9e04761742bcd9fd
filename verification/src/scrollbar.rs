//! Scrollbar chrome decisions: which axes show a bar (the two-pass overflow
//! settle), what a pointer over the chrome hits (hit priority), and the
//! thumb/arrow shading for hover and drag states. The geometry feeding these
//! decisions (rects in device pixels) is computed by the host-side layout.

use vstd::prelude::*;

use crate::color::rgba8_color;

verus! {

/// Which scrollbar axis a piece of chrome belongs to.
#[derive(Debug, Clone, Copy, PartialEq, Eq, Structural)]
pub enum Axis {
    Vertical,
    Horizontal,
}

/// Scrollbar chrome under a viewport-space point. Thumbs are tested before
/// their tracks; the corner wins over both tracks.
#[derive(Debug, Clone, Copy, PartialEq, Eq, Structural)]
pub enum ScrollbarHit {
    VerticalThumb,
    HorizontalThumb,
    /// Square step button at a strip end. `negative` points toward the
    /// scroll origin (up for vertical, left for horizontal).
    Arrow { axis: Axis, negative: bool },
    VerticalTrack { page_up: bool },
    HorizontalTrack { page_left: bool },
    Corner,
}

/// Which scrollbar element the pointer hovers, driving hover colors.
#[derive(Debug, Clone, Copy, PartialEq, Eq, Structural)]
pub enum ScrollbarHover {
    Thumb(Axis),
    Arrow { axis: Axis, negative: bool },
}

/// Per-element visual state driving the thumb/glyph colors. `active` (drag
/// in progress) wins over `hover`.
#[derive(Debug, Clone, Copy, PartialEq, Eq, Default, Structural)]
pub struct ScrollbarVisual {
    pub hover: Option<ScrollbarHover>,
    pub active: Option<Axis>,
}

// ---------------------------------------------------------------------------
// Overflow settle
// ---------------------------------------------------------------------------

/// Whether each axis' content overflows its region, depending on whether
/// the other axis shows a bar (a bar's strip shrinks the other region).
#[derive(Debug, Clone, Copy, PartialEq, Eq, Structural)]
pub struct OverflowProbe {
    /// Vertical content overflows the full-height region.
    pub v_without_h: bool,
    /// Vertical content overflows the region left by a horizontal bar.
    pub v_with_h: bool,
    /// Horizontal content overflows the full-width region.
    pub h_without_v: bool,
    /// Horizontal content overflows the region left by a vertical bar.
    pub h_with_v: bool,
}

pub open spec fn v_overflow(p: OverflowProbe, h_bar: bool) -> bool {
    if h_bar { p.v_with_h } else { p.v_without_h }
}

pub open spec fn h_overflow(p: OverflowProbe, v_bar: bool) -> bool {
    if v_bar { p.h_with_v } else { p.h_without_v }
}

/// One re-check pass: each axis re-evaluated against the other's current bar.
pub open spec fn overflow_step(p: OverflowProbe, s: (bool, bool)) -> (bool, bool) {
    (v_overflow(p, s.1), h_overflow(p, s.0))
}

/// Start from the bar-free regions, then re-check at most twice, stopping
/// early once a pass changes nothing.
pub open spec fn settled_bars(p: OverflowProbe) -> (bool, bool) {
    let s0 = (p.v_without_h, p.h_without_v);
    let s1 = overflow_step(p, s0);
    if s1 == s0 {
        s0
    } else {
        let s2 = overflow_step(p, s1);
        if s2 == s1 {
            s1
        } else {
            s2
        }
    }
}

/// A bar never makes the other axis' region larger, so an axis that
/// overflows without the other bar also overflows with it.
pub open spec fn probe_monotone(p: OverflowProbe) -> bool {
    &&& p.v_without_h ==> p.v_with_h
    &&& p.h_without_v ==> p.h_with_v
}

/// Which axes show a bar, as `(vertical, horizontal)`: two-pass, since a
/// bar appearing on one axis shrinks the other axis' region, which may
/// itself start overflowing.
pub fn settle_overflow(p: &OverflowProbe) -> (bars: (bool, bool))
    ensures
        bars == settled_bars(*p),
{
    let mut need_v = p.v_without_h;
    let mut need_h = p.h_without_v;
    let mut pass: usize = 0;
    while pass < 2
        invariant
            pass <= 2,
            pass == 0 ==> (need_v, need_h) == (p.v_without_h, p.h_without_v),
            pass == 1 ==> (need_v, need_h) == overflow_step(*p, (p.v_without_h, p.h_without_v))
                && overflow_step(*p, (p.v_without_h, p.h_without_v)) != (
                p.v_without_h,
                p.h_without_v,
            ),
            pass == 2 ==> (need_v, need_h) == settled_bars(*p),
        decreases 2 - pass,
    {
        let next_v = if need_h {
            p.v_with_h
        } else {
            p.v_without_h
        };
        let next_h = if need_v {
            p.h_with_v
        } else {
            p.h_without_v
        };
        if next_v == need_v && next_h == need_h {
            return (need_v, need_h);
        }
        need_v = next_v;
        need_h = next_h;
        pass += 1;
    }
    (need_v, need_h)
}

/// With a monotone probe the settled bars are stable: re-checking either
/// axis against the other's bar changes nothing.
pub proof fn lemma_settled_bars_stable(p: OverflowProbe)
    requires
        probe_monotone(p),
    ensures
        overflow_step(p, settled_bars(p)) == settled_bars(p),
{
}

/// With a monotone probe the settled bars are the fewest stable ones: any
/// stable choice of bars shows at least these.
pub proof fn lemma_settled_bars_least(p: OverflowProbe, v: bool, h: bool)
    requires
        probe_monotone(p),
        overflow_step(p, (v, h)) == (v, h),
    ensures
        settled_bars(p).0 ==> v,
        settled_bars(p).1 ==> h,
{
}

// ---------------------------------------------------------------------------
// Hit priority
// ---------------------------------------------------------------------------

/// Which pieces of one bar contain the point (positive-area containment),
/// and whether the point lies before the thumb along the bar.
#[derive(Debug, Clone, Copy, PartialEq, Eq, Structural)]
pub struct BarProbe {
    pub thumb: bool,
    pub arrow_start: bool,
    pub arrow_end: bool,
    pub track: bool,
    pub before_thumb: bool,
}

/// What a point over the scrollbar chrome touches: the corner square, and
/// each visible bar's pieces.
#[derive(Debug, Clone, Copy, PartialEq, Eq, Structural)]
pub struct ScrollbarProbe {
    pub corner: bool,
    pub vertical: Option<BarProbe>,
    pub horizontal: Option<BarProbe>,
}

pub open spec fn bar_hit(axis: Axis, b: BarProbe) -> Option<ScrollbarHit> {
    if b.thumb {
        Some(
            match axis {
                Axis::Vertical => ScrollbarHit::VerticalThumb,
                Axis::Horizontal => ScrollbarHit::HorizontalThumb,
            },
        )
    } else if b.arrow_start {
        Some(ScrollbarHit::Arrow { axis, negative: true })
    } else if b.arrow_end {
        Some(ScrollbarHit::Arrow { axis, negative: false })
    } else if b.track {
        Some(
            match axis {
                Axis::Vertical => ScrollbarHit::VerticalTrack { page_up: b.before_thumb },
                Axis::Horizontal => ScrollbarHit::HorizontalTrack { page_left: b.before_thumb },
            },
        )
    } else {
        None
    }
}

/// Corner first, then the vertical bar (thumb, arrows, track), then the
/// horizontal bar.
pub open spec fn probe_hit(p: ScrollbarProbe) -> Option<ScrollbarHit> {
    if p.corner {
        Some(ScrollbarHit::Corner)
    } else {
        let v = match p.vertical {
            Some(b) => bar_hit(Axis::Vertical, b),
            None => None,
        };
        if v is Some {
            v
        } else {
            match p.horizontal {
                Some(b) => bar_hit(Axis::Horizontal, b),
                None => None,
            }
        }
    }
}

fn probe_bar(axis: Axis, b: &BarProbe) -> (h: Option<ScrollbarHit>)
    ensures
        h == bar_hit(axis, *b),
{
    if b.thumb {
        return Some(
            match axis {
                Axis::Vertical => ScrollbarHit::VerticalThumb,
                Axis::Horizontal => ScrollbarHit::HorizontalThumb,
            },
        );
    }
    // Arrows flank the track inside the same strip, so they are tested
    // before the track (a track hit would page instead of step).
    if b.arrow_start {
        return Some(ScrollbarHit::Arrow { axis, negative: true });
    }
    if b.arrow_end {
        return Some(ScrollbarHit::Arrow { axis, negative: false });
    }
    if b.track {
        return Some(
            match axis {
                Axis::Vertical => ScrollbarHit::VerticalTrack { page_up: b.before_thumb },
                Axis::Horizontal => ScrollbarHit::HorizontalTrack { page_left: b.before_thumb },
            },
        );
    }
    None
}

/// Scrollbar chrome under a probed point. The corner is checked first: its
/// square abuts the end of both tracks, so a point inside it must not page
/// either bar.
pub fn scrollbar_hit(p: &ScrollbarProbe) -> (h: Option<ScrollbarHit>)
    ensures
        h == probe_hit(*p),
{
    if p.corner {
        return Some(ScrollbarHit::Corner);
    }
    if let Some(b) = &p.vertical {
        let h = probe_bar(Axis::Vertical, b);
        if h.is_some() {
            return h;
        }
    }
    if let Some(b) = &p.horizontal {
        return probe_bar(Axis::Horizontal, b);
    }
    None
}

/// A thumb under the point wins over its track and arrows, and the corner
/// wins over everything.
pub proof fn lemma_hit_priority(p: ScrollbarProbe)
    ensures
        p.corner ==> probe_hit(p) == Some(ScrollbarHit::Corner),
        !p.corner && p.vertical is Some && p.vertical.unwrap().thumb ==> probe_hit(p) == Some(
            ScrollbarHit::VerticalThumb,
        ),
        !p.corner && p.vertical is None && p.horizontal is Some && p.horizontal.unwrap().thumb
            ==> probe_hit(p) == Some(ScrollbarHit::HorizontalThumb),
        probe_hit(p) is None ==> !p.corner,
{
}

/// A click on a track (off the thumb and arrows) pages toward the click:
/// up or left when it lies before the thumb, down or right when after.
pub proof fn lemma_track_pages_toward_click(p: ScrollbarProbe, b: BarProbe)
    ensures
        !p.corner && p.vertical == Some(b) && !b.thumb && !b.arrow_start && !b.arrow_end
            && b.track ==> probe_hit(p) == Some(
            ScrollbarHit::VerticalTrack { page_up: b.before_thumb },
        ),
        !p.corner && p.vertical is None && p.horizontal == Some(b) && !b.thumb
            && !b.arrow_start && !b.arrow_end && b.track ==> probe_hit(p) == Some(
            ScrollbarHit::HorizontalTrack { page_left: b.before_thumb },
        ),
{
}

/// Arrows step toward their own end: the start arrow steps toward the
/// origin, the end arrow away from it, on the bar the arrow belongs to.
pub proof fn lemma_arrow_steps(p: ScrollbarProbe, b: BarProbe)
    ensures
        !p.corner && p.vertical == Some(b) && !b.thumb && b.arrow_start ==> probe_hit(p)
            == Some(ScrollbarHit::Arrow { axis: Axis::Vertical, negative: true }),
        !p.corner && p.vertical == Some(b) && !b.thumb && !b.arrow_start && b.arrow_end
            ==> probe_hit(p) == Some(ScrollbarHit::Arrow { axis: Axis::Vertical, negative: false }),
        !p.corner && p.vertical is None && p.horizontal == Some(b) && !b.thumb
            && b.arrow_start ==> probe_hit(p) == Some(
            ScrollbarHit::Arrow { axis: Axis::Horizontal, negative: true },
        ),
        !p.corner && p.vertical is None && p.horizontal == Some(b) && !b.thumb
            && !b.arrow_start && b.arrow_end ==> probe_hit(p) == Some(
            ScrollbarHit::Arrow { axis: Axis::Horizontal, negative: false },
        ),
{
}

// ---------------------------------------------------------------------------
// Shading
// ---------------------------------------------------------------------------

pub open spec fn thumb_rgba() -> peniko::Color {
    rgba8_color(0xC1, 0xC1, 0xC1, 0xFF)
}

pub open spec fn thumb_hover_rgba() -> peniko::Color {
    rgba8_color(0xA8, 0xA8, 0xA8, 0xFF)
}

pub open spec fn thumb_active_rgba() -> peniko::Color {
    rgba8_color(0x8C, 0x8C, 0x8C, 0xFF)
}

/// The thumb color of `axis`: darkest while dragged, darker while hovered.
pub open spec fn thumb_shade(axis: Axis, visual: ScrollbarVisual) -> peniko::Color {
    if visual.active == Some(axis) {
        thumb_active_rgba()
    } else if visual.hover == Some(ScrollbarHover::Thumb(axis)) {
        thumb_hover_rgba()
    } else {
        thumb_rgba()
    }
}

/// The glyph color of an arrow button: darker while hovered.
pub open spec fn arrow_shade(axis: Axis, negative: bool, visual: ScrollbarVisual) -> peniko::Color {
    if visual.hover == Some(ScrollbarHover::Arrow { axis, negative }) {
        thumb_hover_rgba()
    } else {
        thumb_rgba()
    }
}

/// A thumb darkens only for its own axis: dragged, it takes the drag color;
/// hovered (and not dragged), the hover color; otherwise (even while the
/// other bar is dragged or hovered) the idle color.
pub proof fn lemma_thumb_shade_own_axis(axis: Axis, visual: ScrollbarVisual)
    ensures
        visual.active == Some(axis) ==> thumb_shade(axis, visual) == rgba8_color(
            0x8C,
            0x8C,
            0x8C,
            0xFF,
        ),
        visual.active != Some(axis) && visual.hover == Some(ScrollbarHover::Thumb(axis))
            ==> thumb_shade(axis, visual) == rgba8_color(0xA8, 0xA8, 0xA8, 0xFF),
        visual.active != Some(axis) && visual.hover != Some(ScrollbarHover::Thumb(axis))
            ==> thumb_shade(axis, visual) == rgba8_color(0xC1, 0xC1, 0xC1, 0xFF),
{
}

/// An arrow darkens only when the pointer hovers that very arrow; dragging a
/// thumb leaves the arrows idle.
pub proof fn lemma_arrow_shade_own_arrow(axis: Axis, negative: bool, visual: ScrollbarVisual)
    ensures
        visual.hover == Some(ScrollbarHover::Arrow { axis, negative }) ==> arrow_shade(
            axis,
            negative,
            visual,
        ) == rgba8_color(0xA8, 0xA8, 0xA8, 0xFF),
        visual.hover != Some(ScrollbarHover::Arrow { axis, negative }) ==> arrow_shade(
            axis,
            negative,
            visual,
        ) == rgba8_color(0xC1, 0xC1, 0xC1, 0xFF),
{
}

/// Thumb fill color for `axis` under the given visual state.
pub fn thumb_color(axis: Axis, visual: ScrollbarVisual) -> (c: peniko::Color)
    ensures
        c == thumb_shade(axis, visual),
{
    let active = match visual.active {
        Some(a) => a == axis,
        None => false,
    };
    let hovered = match visual.hover {
        Some(ScrollbarHover::Thumb(a)) => a == axis,
        _ => false,
    };
    if active {
        crate::color::rgba8(0x8C, 0x8C, 0x8C, 0xFF)
    } else if hovered {
        crate::color::rgba8(0xA8, 0xA8, 0xA8, 0xFF)
    } else {
        crate::color::rgba8(0xC1, 0xC1, 0xC1, 0xFF)
    }
}

/// Arrow glyph fill color: arrows darken on hover exactly like the thumb.
pub fn arrow_color(axis: Axis, negative: bool, visual: ScrollbarVisual) -> (c: peniko::Color)
    ensures
        c == arrow_shade(axis, negative, visual),
{
    let hovered = match visual.hover {
        Some(ScrollbarHover::Arrow { axis: a, negative: n }) => a == axis && n == negative,
        _ => false,
    };
    if hovered {
        crate::color::rgba8(0xA8, 0xA8, 0xA8, 0xFF)
    } else {
        crate::color::rgba8(0xC1, 0xC1, 0xC1, 0xFF)
    }
}

} // verus!
