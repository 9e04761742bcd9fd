//! Body-text selection over a page's text codes: reading-order segments,
//! drag ranges between two hits, double-click words and triple-click
//! paragraphs. Offsets are char (not byte) offsets.
//!
//! The page model holds what selection reads of an OFD page: its layers,
//! their objects in paint order, and for each text object its codes (glyph
//! ids and text). Geometry (boundaries, deltas, font sizes) belongs to the
//! hit-testing and drawing layer.

use vstd::prelude::*;

verus! {

/// One `TextCode` of a text object: the glyph ids it draws (may be empty for
/// shaped text) and its Unicode text.
#[derive(Debug, Clone, PartialEq, Eq)]
pub struct TextCode {
    pub glyph_ids: Vec<u32>,
    pub text: String,
}

/// A body text object: its id and codes in order.
#[derive(Debug, Clone, PartialEq, Eq)]
pub struct TextObject {
    pub id: String,
    pub codes: Vec<TextCode>,
}

/// A page object as selection sees it: text, or anything else (paths,
/// images, composites) which carries no selectable text.
#[derive(Debug, Clone, PartialEq, Eq)]
pub enum PageObject {
    Text(TextObject),
    Other,
}

/// One layer of a page, objects in paint order.
#[derive(Debug, Clone, PartialEq, Eq)]
pub struct Layer {
    pub objects: Vec<PageObject>,
}

/// A page: its id and layers in order.
#[derive(Debug, Clone, PartialEq, Eq)]
pub struct Page {
    pub id: String,
    pub layers: Vec<Layer>,
}

/// A selected character range within one TextCode: chars `[start, end)` of
/// `code_index` inside `object`.
#[derive(Debug, Clone, PartialEq, Eq)]
pub struct BodyTextRange {
    pub object: String,
    pub code_index: usize,
    pub start: usize,
    pub end: usize,
}

/// The text-selection UI state: ranges on one page.
#[derive(Debug, Clone, PartialEq, Eq)]
pub struct BodyTextSelection {
    pub page: String,
    pub ranges: Vec<BodyTextRange>,
}

/// Where a pointer hit landed in the body text. `char_offset` may equal the
/// code's char count (past-the-end boundary).
#[derive(Debug, Clone, PartialEq, Eq)]
pub struct TextHit {
    pub page: String,
    pub object: String,
    pub code_index: usize,
    pub char_offset: usize,
}

/// One body-text segment in reading order: a code of a text object and its
/// char count.
#[derive(Debug, Clone, PartialEq, Eq)]
pub struct TextSegment {
    pub object: String,
    pub code_index: usize,
    pub len: usize,
}

/// (object id, code index, char count)
pub type SegmentView = (Seq<char>, nat, nat);

/// (object id, code index, start, end)
pub type RangeView = (Seq<char>, nat, nat, nat);

/// (object id, code index, char offset)
pub type HitView = (Seq<char>, nat, nat);

impl View for TextSegment {
    type V = SegmentView;

    open spec fn view(&self) -> SegmentView {
        (self.object@, self.code_index as nat, self.len as nat)
    }
}

impl View for BodyTextRange {
    type V = RangeView;

    open spec fn view(&self) -> RangeView {
        (self.object@, self.code_index as nat, self.start as nat, self.end as nat)
    }
}

impl TextHit {
    pub open spec fn key(&self) -> HitView {
        (self.object@, self.code_index as nat, self.char_offset as nat)
    }
}

pub open spec fn segments_view(v: Seq<TextSegment>) -> Seq<SegmentView> {
    v.map_values(|s: TextSegment| s@)
}

pub open spec fn ranges_view(v: Seq<BodyTextRange>) -> Seq<RangeView> {
    v.map_values(|r: BodyTextRange| r@)
}

// ---------------------------------------------------------------------------
// Model
// ---------------------------------------------------------------------------

pub open spec fn nat_min(a: nat, b: nat) -> nat {
    if a <= b { a } else { b }
}

/// First index of `s` whose element satisfies `p`.
pub open spec fn first_index<A>(s: Seq<A>, p: spec_fn(A) -> bool) -> Option<nat>
    decreases s.len(),
{
    if s.len() == 0 {
        None
    } else if p(s[0]) {
        Some(0)
    } else {
        match first_index(s.drop_first(), p) {
            Some(i) => Some(i + 1),
            None => None,
        }
    }
}

/// Char count of a code as hit-testing sees it: the glyph count when the
/// code carries glyph ids, else the text's char count.
pub open spec fn code_len(c: TextCode) -> nat {
    if c.glyph_ids@.len() == 0 {
        c.text@.len()
    } else {
        c.glyph_ids@.len()
    }
}

/// Text objects among `objs`, in order.
pub open spec fn text_objects_of(objs: Seq<PageObject>) -> Seq<TextObject>
    decreases objs.len(),
{
    if objs.len() == 0 {
        Seq::empty()
    } else {
        text_objects_of(objs.drop_last()) + match objs.last() {
            PageObject::Text(t) => seq![t],
            PageObject::Other => Seq::empty(),
        }
    }
}

/// Text objects of all layers, layer order then object order.
pub open spec fn layers_text_objects(layers: Seq<Layer>) -> Seq<TextObject>
    decreases layers.len(),
{
    if layers.len() == 0 {
        Seq::empty()
    } else {
        layers_text_objects(layers.drop_last()) + text_objects_of(layers.last().objects@)
    }
}

pub open spec fn page_text_objects(p: Page) -> Seq<TextObject> {
    layers_text_objects(p.layers@)
}

/// The segments of one text object: one per code.
pub open spec fn code_segments(t: TextObject) -> Seq<SegmentView> {
    Seq::new(t.codes@.len(), |ci: int| (t.id@, ci as nat, code_len(t.codes@[ci])))
}

pub open spec fn segments_of(ts: Seq<TextObject>) -> Seq<SegmentView>
    decreases ts.len(),
{
    if ts.len() == 0 {
        Seq::empty()
    } else {
        segments_of(ts.drop_last()) + code_segments(ts.last())
    }
}

/// All body-text segments of a page in reading order (layer order, object
/// order, code order).
pub open spec fn page_segments(p: Page) -> Seq<SegmentView> {
    segments_of(page_text_objects(p))
}

pub open spec fn is_object(id: Seq<char>) -> spec_fn(TextObject) -> bool {
    |t: TextObject| t.id@ == id
}

/// The first text object of the page with id `id`.
pub open spec fn find_text_object(p: Page, id: Seq<char>) -> Option<TextObject> {
    match first_index(page_text_objects(p), is_object(id)) {
        Some(i) => Some(page_text_objects(p)[i as int]),
        None => None,
    }
}

pub open spec fn is_segment(object: Seq<char>, code_index: nat) -> spec_fn(SegmentView) -> bool {
    |s: SegmentView| s.0 == object && s.1 == code_index
}

/// Ranges that select at least one char, in order.
pub open spec fn keep_nonempty(rs: Seq<RangeView>) -> Seq<RangeView>
    decreases rs.len(),
{
    if rs.len() == 0 {
        Seq::empty()
    } else {
        keep_nonempty(rs.drop_last()) + if rs.last().2 < rs.last().3 {
            seq![rs.last()]
        } else {
            Seq::empty()
        }
    }
}

/// The range a segment contributes to a drag selection: the first segment
/// starts at `lo_off`, the last ends at `hi_off` (both clamped to the char
/// count); segments between are whole.
pub open spec fn segment_range(
    seg: SegmentView,
    is_first: bool,
    is_last: bool,
    lo_off: nat,
    hi_off: nat,
) -> RangeView {
    (
        seg.0,
        seg.1,
        if is_first { nat_min(lo_off, seg.2) } else { 0 },
        if is_last { nat_min(hi_off, seg.2) } else { seg.2 },
    )
}

/// Candidate ranges for the segments `lo..=hi`.
pub open spec fn span_ranges(
    segs: Seq<SegmentView>,
    lo: nat,
    hi: nat,
    lo_off: nat,
    hi_off: nat,
) -> Seq<RangeView> {
    Seq::new(
        (hi - lo + 1) as nat,
        |k: int| segment_range(segs[lo + k], k == 0, k == hi - lo, lo_off, hi_off),
    )
}

/// The ranges covering the span between hits `a` and `b` (either order) in
/// the reading order `segs`.
pub open spec fn ranges_between(segs: Seq<SegmentView>, a: HitView, b: HitView) -> Seq<RangeView> {
    match (first_index(segs, is_segment(a.0, a.1)), first_index(segs, is_segment(b.0, b.1))) {
        (Some(ia), Some(ib)) => {
            let a_first = ia < ib || (ia == ib && a.2 <= b.2);
            if a_first {
                keep_nonempty(span_ranges(segs, ia, ib, a.2, b.2))
            } else {
                keep_nonempty(span_ranges(segs, ib, ia, b.2, a.2))
            }
        },
        _ => Seq::empty(),
    }
}

// ---------------------------------------------------------------------------
// Lemmas on the model
// ---------------------------------------------------------------------------

proof fn lemma_first_index_found<A>(s: Seq<A>, p: spec_fn(A) -> bool, i: int)
    requires
        0 <= i < s.len(),
        p(s[i]),
        forall|j: int| 0 <= j < i ==> !p(#[trigger] s[j]),
    ensures
        first_index(s, p) == Some(i as nat),
    decreases i,
{
    if i > 0 {
        assert(!p(s[0]));
        lemma_first_index_found(s.drop_first(), p, i - 1);
    }
}

proof fn lemma_first_index_none<A>(s: Seq<A>, p: spec_fn(A) -> bool)
    requires
        forall|j: int| 0 <= j < s.len() ==> !p(#[trigger] s[j]),
    ensures
        first_index(s, p) is None,
    decreases s.len(),
{
    if s.len() > 0 {
        assert(!p(s[0]));
        lemma_first_index_none(s.drop_first(), p);
    }
}

proof fn lemma_first_index_some<A>(s: Seq<A>, p: spec_fn(A) -> bool)
    requires
        first_index(s, p) is Some,
    ensures
        first_index(s, p).unwrap() < s.len(),
        p(s[first_index(s, p).unwrap() as int]),
    decreases s.len(),
{
    if s.len() > 0 && !p(s[0]) {
        lemma_first_index_some(s.drop_first(), p);
    }
}

proof fn lemma_keep_nonempty_members(rs: Seq<RangeView>)
    ensures
        forall|i: int|
            0 <= i < keep_nonempty(rs).len() ==> {
                &&& (#[trigger] keep_nonempty(rs)[i]).2 < keep_nonempty(rs)[i].3
                &&& exists|k: int| 0 <= k < rs.len() && rs[k] == keep_nonempty(rs)[i]
            },
    decreases rs.len(),
{
    if rs.len() > 0 {
        let prev = rs.drop_last();
        lemma_keep_nonempty_members(prev);
        assert forall|i: int| 0 <= i < keep_nonempty(rs).len() implies {
            &&& (#[trigger] keep_nonempty(rs)[i]).2 < keep_nonempty(rs)[i].3
            &&& exists|k: int| 0 <= k < rs.len() && rs[k] == keep_nonempty(rs)[i]
        } by {
            if i < keep_nonempty(prev).len() {
                let k = choose|k: int| 0 <= k < prev.len() && prev[k] == keep_nonempty(prev)[i];
                assert(rs[k] == prev[k]);
            } else {
                assert(rs[rs.len() - 1] == keep_nonempty(rs)[i]);
            }
        }
    }
}

proof fn lemma_keep_nonempty_order(rs: Seq<RangeView>)
    ensures
        forall|i: int, j: int|
            0 <= i < j < keep_nonempty(rs).len() ==> exists|k1: int, k2: int|
                0 <= k1 < k2 < rs.len() && rs[k1] == #[trigger] keep_nonempty(rs)[i] && rs[k2]
                    == #[trigger] keep_nonempty(rs)[j],
    decreases rs.len(),
{
    if rs.len() > 0 {
        let prev = rs.drop_last();
        lemma_keep_nonempty_order(prev);
        lemma_keep_nonempty_members(prev);
        assert forall|i: int, j: int| 0 <= i < j < keep_nonempty(rs).len() implies exists|
            k1: int,
            k2: int,
        |
            0 <= k1 < k2 < rs.len() && rs[k1] == #[trigger] keep_nonempty(rs)[i] && rs[k2]
                == #[trigger] keep_nonempty(rs)[j] by {
            let n = keep_nonempty(prev).len();
            assert(keep_nonempty(rs)[i] == keep_nonempty(prev)[i]);
            if j < n {
                assert(keep_nonempty(rs)[j] == keep_nonempty(prev)[j]);
                let (k1, k2) = choose|k1: int, k2: int|
                    0 <= k1 < k2 < prev.len() && prev[k1] == keep_nonempty(prev)[i] && prev[k2]
                        == keep_nonempty(prev)[j];
                assert(rs[k1] == prev[k1] && rs[k2] == prev[k2]);
            } else {
                assert(keep_nonempty(rs)[j] == rs[rs.len() - 1]);
                assert(0 <= i < keep_nonempty(prev).len());
                assert((keep_nonempty(prev)[i]).2 < keep_nonempty(prev)[i].3);
                let k1 = choose|k: int| 0 <= k < prev.len() && prev[k] == keep_nonempty(prev)[i];
                assert(rs[k1] == prev[k1]);
                assert(0 <= k1 < rs.len() - 1 < rs.len());
            }
        }
    }
}

// ---------------------------------------------------------------------------
// Laws
// ---------------------------------------------------------------------------

/// Text objects keep the order of the objects they come from: the text
/// objects of a concatenation are those of the first part, then those of the
/// second.
pub proof fn lemma_text_objects_of_concat(a: Seq<PageObject>, b: Seq<PageObject>)
    ensures
        text_objects_of(a + b) == text_objects_of(a) + text_objects_of(b),
    decreases b.len(),
{
    if b.len() == 0 {
        assert(a + b =~= a);
        assert(text_objects_of(a) + text_objects_of(b) =~= text_objects_of(a));
    } else {
        assert((a + b).drop_last() =~= a + b.drop_last());
        assert((a + b).last() == b.last());
        lemma_text_objects_of_concat(a, b.drop_last());
        let tail = match b.last() {
            PageObject::Text(t) => seq![t],
            PageObject::Other => Seq::<TextObject>::empty(),
        };
        assert(text_objects_of(a) + text_objects_of(b.drop_last()) + tail =~= text_objects_of(a)
            + (text_objects_of(b.drop_last()) + tail));
    }
}

/// A text object contributes itself; any other object contributes nothing.
pub proof fn lemma_text_objects_of_single(o: PageObject)
    ensures
        text_objects_of(seq![o]) == match o {
            PageObject::Text(t) => seq![t],
            PageObject::Other => Seq::<TextObject>::empty(),
        },
{
    assert(seq![o].drop_last() =~= Seq::<PageObject>::empty());
    assert(seq![o].last() == o);
    assert(text_objects_of(Seq::<PageObject>::empty()) =~= Seq::<TextObject>::empty());
    match o {
        PageObject::Text(t) => {
            assert(Seq::<TextObject>::empty() + seq![t] =~= seq![t]);
        },
        PageObject::Other => {
            assert(Seq::<TextObject>::empty() + Seq::<TextObject>::empty()
                =~= Seq::<TextObject>::empty());
        },
    }
}

/// Layers are read in order: the text objects of a concatenation of layers
/// are those of the first layers, then those of the later ones.
pub proof fn lemma_layers_text_objects_concat(a: Seq<Layer>, b: Seq<Layer>)
    ensures
        layers_text_objects(a + b) == layers_text_objects(a) + layers_text_objects(b),
    decreases b.len(),
{
    if b.len() == 0 {
        assert(a + b =~= a);
        assert(layers_text_objects(a) + layers_text_objects(b) =~= layers_text_objects(a));
    } else {
        assert((a + b).drop_last() =~= a + b.drop_last());
        assert((a + b).last() == b.last());
        lemma_layers_text_objects_concat(a, b.drop_last());
        assert(layers_text_objects(a) + layers_text_objects(b.drop_last()) + text_objects_of(
            b.last().objects@,
        ) =~= layers_text_objects(a) + (layers_text_objects(b.drop_last()) + text_objects_of(
            b.last().objects@,
        )));
    }
}

/// Segments keep the order of their text objects: the segments of a
/// concatenation are those of the first objects, then those of the later
/// ones.
pub proof fn lemma_segments_of_concat(a: Seq<TextObject>, b: Seq<TextObject>)
    ensures
        segments_of(a + b) == segments_of(a) + segments_of(b),
    decreases b.len(),
{
    if b.len() == 0 {
        assert(a + b =~= a);
        assert(segments_of(a) + segments_of(b) =~= segments_of(a));
    } else {
        assert((a + b).drop_last() =~= a + b.drop_last());
        assert((a + b).last() == b.last());
        lemma_segments_of_concat(a, b.drop_last());
        assert(segments_of(a) + segments_of(b.drop_last()) + code_segments(b.last()) =~= segments_of(
            a,
        ) + (segments_of(b.drop_last()) + code_segments(b.last())));
    }
}

/// One text object yields one segment per code, in code order, each with
/// the code's char count.
pub proof fn lemma_segments_of_single(t: TextObject)
    ensures
        segments_of(seq![t]).len() == t.codes@.len(),
        forall|ci: int|
            0 <= ci < t.codes@.len() ==> #[trigger] segments_of(seq![t])[ci] == (
                t.id@,
                ci as nat,
                code_len(t.codes@[ci]),
            ),
{
    assert(seq![t].drop_last() =~= Seq::<TextObject>::empty());
    assert(seq![t].last() == t);
    assert(segments_of(Seq::<TextObject>::empty()) =~= Seq::<SegmentView>::empty());
    assert(segments_of(seq![t]) == segments_of(Seq::<TextObject>::empty()) + code_segments(t));
    assert(segments_of(seq![t]) =~= code_segments(t));
}

/// A drag selection does not depend on the drag direction: the ranges from
/// `a` to `b` are the ranges from `b` to `a`.
pub proof fn lemma_ranges_between_symmetric(segs: Seq<SegmentView>, a: HitView, b: HitView)
    ensures
        ranges_between(segs, a, b) == ranges_between(segs, b, a),
{
}

/// Ranges `rs` follow the reading order of `segs`: of two ranges, the
/// earlier lies on a code that comes earlier among the segments.
pub open spec fn in_reading_order(segs: Seq<SegmentView>, rs: Seq<RangeView>) -> bool {
    forall|i: int, j: int|
        0 <= i < j < rs.len() ==> #[trigger] code_before(segs, rs[i], rs[j])
}

/// Range `r1` lies on a code that comes before the code `r2` lies on.
pub open spec fn code_before(segs: Seq<SegmentView>, r1: RangeView, r2: RangeView) -> bool {
    exists|p: int, q: int|
        #![trigger segs[p], segs[q]]
        0 <= p < q < segs.len() && on_segment(r1, segs[p]) && on_segment(r2, segs[q])
}

/// Range `r` lies on the code of segment `seg` (same object and code index).
pub open spec fn on_segment(r: RangeView, seg: SegmentView) -> bool {
    r.0 == seg.0 && r.1 == seg.1
}

/// A drag selection follows the page's reading order: of two of its ranges,
/// the earlier lies on a code that comes earlier on the page.
pub proof fn lemma_ranges_between_reading_order(segs: Seq<SegmentView>, a: HitView, b: HitView)
    ensures
        in_reading_order(segs, ranges_between(segs, a, b)),
{
    let ia = first_index(segs, is_segment(a.0, a.1));
    let ib = first_index(segs, is_segment(b.0, b.1));
    if ia is Some && ib is Some {
        lemma_first_index_some(segs, is_segment(a.0, a.1));
        lemma_first_index_some(segs, is_segment(b.0, b.1));
        let ia = ia.unwrap();
        let ib = ib.unwrap();
        let a_first = ia < ib || (ia == ib && a.2 <= b.2);
        let (lo, hi, lo_off, hi_off) = if a_first {
            (ia, ib, a.2, b.2)
        } else {
            (ib, ia, b.2, a.2)
        };
        let cands = span_ranges(segs, lo, hi, lo_off, hi_off);
        lemma_keep_nonempty_order(cands);
        let kept = keep_nonempty(cands);
        assert(ranges_between(segs, a, b) == kept);
        assert forall|i: int, j: int| 0 <= i < j < kept.len() implies #[trigger] code_before(
            segs,
            kept[i],
            kept[j],
        ) by {
            let (k1, k2) = choose|k1: int, k2: int|
                0 <= k1 < k2 < cands.len() && cands[k1] == keep_nonempty(cands)[i] && cands[k2]
                    == keep_nonempty(cands)[j];
            let p = lo + k1;
            let q = lo + k2;
            assert(segs[p].0 == cands[k1].0 && segs[p].1 == cands[k1].1);
            assert(segs[q].0 == cands[k2].0 && segs[q].1 == cands[k2].1);
            assert(on_segment(kept[i], segs[p]) && on_segment(kept[j], segs[q]));
        }
        assert(in_reading_order(segs, kept));
    } else {
        assert(ranges_between(segs, a, b).len() == 0);
    }
}

/// Every range of a drag selection selects at least one char and lies
/// within the char count of a code of the page.
pub proof fn lemma_ranges_between_within_codes(segs: Seq<SegmentView>, a: HitView, b: HitView)
    ensures
        forall|i: int|
            0 <= i < ranges_between(segs, a, b).len() ==> exists|j: int|
                0 <= j < segs.len() && segs[j].0 == (#[trigger] ranges_between(segs, a, b)[i]).0
                    && segs[j].1 == ranges_between(segs, a, b)[i].1
                    && ranges_between(segs, a, b)[i].2 < ranges_between(segs, a, b)[i].3
                    <= segs[j].2,
{
    let ia = first_index(segs, is_segment(a.0, a.1));
    let ib = first_index(segs, is_segment(b.0, b.1));
    if ia is Some && ib is Some {
        lemma_first_index_some(segs, is_segment(a.0, a.1));
        lemma_first_index_some(segs, is_segment(b.0, b.1));
        let ia = ia.unwrap();
        let ib = ib.unwrap();
        let a_first = ia < ib || (ia == ib && a.2 <= b.2);
        let (lo, hi, lo_off, hi_off) = if a_first {
            (ia, ib, a.2, b.2)
        } else {
            (ib, ia, b.2, a.2)
        };
        let cands = span_ranges(segs, lo, hi, lo_off, hi_off);
        lemma_keep_nonempty_members(cands);
        assert(ranges_between(segs, a, b) == keep_nonempty(cands));
        assert forall|i: int| 0 <= i < keep_nonempty(cands).len() implies exists|j: int|
            0 <= j < segs.len() && segs[j].0 == (#[trigger] keep_nonempty(cands)[i]).0
                && segs[j].1 == keep_nonempty(cands)[i].1 && keep_nonempty(cands)[i].2
                < keep_nonempty(cands)[i].3 <= segs[j].2 by {
            let k = choose|k: int| 0 <= k < cands.len() && cands[k] == keep_nonempty(cands)[i];
            let j = lo + k;
            assert(0 <= j < segs.len());
            assert(segs[j].0 == cands[k].0);
        }
    }
}

// ---------------------------------------------------------------------------
// Segments
// ---------------------------------------------------------------------------

/// Char count of a code as hit-testing sees it: glyph count when the code
/// carries glyph ids, else the text's char count.
pub fn code_char_count(code: &TextCode) -> (n: usize)
    ensures
        n == code_len(*code),
{
    if code.glyph_ids.len() == 0 {
        code.text.as_str().unicode_len()
    } else {
        code.glyph_ids.len()
    }
}

/// The text objects of `objs`, appended to `out`.
fn push_text_objects<'a>(objs: &'a Vec<PageObject>, out: &mut Vec<&'a TextObject>)
    ensures
        final(out)@.map_values(|t: &TextObject| *t) == old(out)@.map_values(
            |t: &TextObject| *t,
        ) + text_objects_of(objs@),
{
    let ghost start = out@.map_values(|t: &TextObject| *t);
    let mut j: usize = 0;
    while j < objs.len()
        invariant
            j <= objs@.len(),
            out@.map_values(|t: &TextObject| *t) == start + text_objects_of(objs@.take(j as int)),
        decreases objs@.len() - j,
    {
        proof {
            assert(objs@.take(j + 1).drop_last() =~= objs@.take(j as int));
        }
        let ghost prev = out@;
        proof {
            assert(objs@.take(j + 1).last() == objs@[j as int]);
        }
        match &objs[j] {
            PageObject::Text(t) => {
                out.push(t);
                proof {
                    assert(out@ == prev.push(t));
                    assert(out@.map_values(|t: &TextObject| *t) =~= prev.map_values(
                        |t: &TextObject| *t,
                    ).push(*t));
                }
            },
            PageObject::Other => {},
        }
        proof {
            assert(out@.map_values(|t: &TextObject| *t) =~= start + text_objects_of(
                objs@.take(j + 1),
            ));
        }
        j += 1;
    }
    proof {
        assert(objs@.take(objs@.len() as int) =~= objs@);
    }
}

/// All text objects of a page, layer order then object order.
fn text_objects(page: &Page) -> (v: Vec<&TextObject>)
    ensures
        v@.map_values(|t: &TextObject| *t) == page_text_objects(*page),
{
    let mut v: Vec<&TextObject> = Vec::new();
    let mut i: usize = 0;
    while i < page.layers.len()
        invariant
            i <= page.layers@.len(),
            v@.map_values(|t: &TextObject| *t) == layers_text_objects(page.layers@.take(i as int)),
        decreases page.layers@.len() - i,
    {
        proof {
            assert(page.layers@.take(i + 1).drop_last() =~= page.layers@.take(i as int));
        }
        push_text_objects(&page.layers[i].objects, &mut v);
        i += 1;
    }
    proof {
        assert(page.layers@.take(page.layers@.len() as int) =~= page.layers@);
    }
    v
}

/// All body-text segments on a page in reading order (layer order, object
/// order, code order).
pub fn page_text_segments(page: &Page) -> (segs: Vec<TextSegment>)
    ensures
        segments_view(segs@) == page_segments(*page),
{
    let objs = text_objects(page);
    let ghost ts = page_text_objects(*page);
    let mut segs: Vec<TextSegment> = Vec::new();
    let mut i: usize = 0;
    while i < objs.len()
        invariant
            i <= objs@.len(),
            ts == page_text_objects(*page),
            objs@.map_values(|t: &TextObject| *t) == ts,
            segments_view(segs@) == segments_of(ts.take(i as int)),
        decreases objs@.len() - i,
    {
        let t: &TextObject = objs[i];
        assert(*t == ts[i as int]);
        let ghost before = segments_view(segs@);
        let mut ci: usize = 0;
        while ci < t.codes.len()
            invariant
                ci <= t.codes@.len(),
                segments_view(segs@) == before + code_segments(*t).take(ci as int),
            decreases t.codes@.len() - ci,
        {
            let n = code_char_count(&t.codes[ci]);
            let ghost prev = segs@;
            let seg = TextSegment { object: t.id.clone(), code_index: ci, len: n };
            assert(seg@ == code_segments(*t)[ci as int]);
            segs.push(seg);
            proof {
                assert(segs@ == prev.push(seg));
                assert(segments_view(segs@) =~= segments_view(prev).push(seg@));
                assert(segments_view(segs@) =~= before + code_segments(*t).take(ci + 1));
            }
            ci += 1;
        }
        proof {
            assert(code_segments(*t).take(ci as int) =~= code_segments(*t));
            assert(ts.take(i + 1).drop_last() =~= ts.take(i as int));
            assert(ts.take(i + 1).last() == *t);
        }
        i += 1;
    }
    proof {
        assert(ts.take(objs@.len() as int) =~= ts);
    }
    segs
}

/// The first text object on the page whose id is `object`.
pub fn find_object<'a>(page: &'a Page, object: &String) -> (r: Option<&'a TextObject>)
    ensures
        match r {
            Some(t) => find_text_object(*page, object@) == Some(*t),
            None => find_text_object(*page, object@) is None,
        },
{
    let objs = text_objects(page);
    let ghost ts = page_text_objects(*page);
    let mut i: usize = 0;
    while i < objs.len()
        invariant
            i <= objs@.len(),
            ts == page_text_objects(*page),
            objs@.map_values(|t: &TextObject| *t) == ts,
            forall|j: int| 0 <= j < i ==> !is_object(object@)(#[trigger] ts[j]),
        decreases objs@.len() - i,
    {
        assert(*objs[i as int] == ts[i as int]);
        if objs[i].id == *object {
            proof {
                lemma_first_index_found(ts, is_object(object@), i as int);
            }
            return Some(objs[i]);
        }
        i += 1;
    }
    proof {
        lemma_first_index_none(ts, is_object(object@));
    }
    None
}

/// Index of the hit's segment in the page's reading order.
pub fn hit_to_segment(page: &Page, h: &TextHit) -> (r: Option<usize>)
    ensures
        match r {
            Some(i) => first_index(page_segments(*page), is_segment(h.object@, h.code_index as nat))
                == Some(i as nat),
            None => first_index(
                page_segments(*page),
                is_segment(h.object@, h.code_index as nat),
            ) is None,
        },
{
    let segs = page_text_segments(page);
    let ghost sv = page_segments(*page);
    let ghost p = is_segment(h.object@, h.code_index as nat);
    let mut i: usize = 0;
    while i < segs.len()
        invariant
            i <= segs@.len(),
            segments_view(segs@) == sv,
            sv == page_segments(*page),
            p == is_segment(h.object@, h.code_index as nat),
            forall|j: int| 0 <= j < i ==> !p(#[trigger] sv[j]),
        decreases segs@.len() - i,
    {
        assert(sv[i as int] == segs@[i as int]@);
        if segs[i].object == h.object && segs[i].code_index == h.code_index {
            proof {
                lemma_first_index_found(sv, p, i as int);
            }
            return Some(i);
        }
        i += 1;
    }
    proof {
        lemma_first_index_none(sv, p);
    }
    None
}

/// Character ranges covering the span from `a` to `b` (either order) within
/// the page's reading order. Endpoint segments are partial (clamped to their
/// char count); segments between are full. Zero-width ranges are dropped.
pub fn body_text_ranges_between(page: &Page, a: &TextHit, b: &TextHit) -> (r: Vec<BodyTextRange>)
    ensures
        ranges_view(r@) == ranges_between(page_segments(*page), a.key(), b.key()),
{
    let segs = page_text_segments(page);
    let ghost sv = page_segments(*page);
    let ia = hit_to_segment(page, a);
    let ib = hit_to_segment(page, b);
    let (ia, ib) = match (ia, ib) {
        (Some(ia), Some(ib)) => (ia, ib),
        _ => {
            return Vec::new();
        },
    };
    proof {
        lemma_first_index_some(sv, is_segment(a.object@, a.code_index as nat));
        lemma_first_index_some(sv, is_segment(b.object@, b.code_index as nat));
    }
    let a_first = ia < ib || (ia == ib && a.char_offset <= b.char_offset);
    let (lo, hi, lo_off, hi_off) = if a_first {
        (ia, ib, a.char_offset, b.char_offset)
    } else {
        (ib, ia, b.char_offset, a.char_offset)
    };
    let n_segs = segs.len();
    assert(hi < n_segs);
    let span = hi - lo;
    let ghost cands = span_ranges(sv, lo as nat, hi as nat, lo_off as nat, hi_off as nat);
    let mut out: Vec<BodyTextRange> = Vec::new();
    let mut k: usize = 0;
    while k <= span
        invariant
            lo <= hi < segs@.len(),
            span == hi - lo,
            span < usize::MAX,
            k <= span + 1,
            segments_view(segs@) == sv,
            cands == span_ranges(sv, lo as nat, hi as nat, lo_off as nat, hi_off as nat),
            ranges_view(out@) == keep_nonempty(cands.take(k as int)),
        decreases span + 1 - k,
    {
        let seg = &segs[lo + k];
        assert(seg@ == sv[lo + k]);
        let start = if k == 0 {
            if lo_off <= seg.len {
                lo_off
            } else {
                seg.len
            }
        } else {
            0
        };
        let end = if k == span {
            if hi_off <= seg.len {
                hi_off
            } else {
                seg.len
            }
        } else {
            seg.len
        };
        let ghost before = out@;
        if end > start {
            out.push(
                BodyTextRange { object: seg.object.clone(), code_index: seg.code_index, start, end },
            );
        }
        proof {
            assert(cands.take(k + 1).drop_last() =~= cands.take(k as int));
            assert(cands.take(k + 1).last() == cands[k as int]);
            assert(cands[k as int] == (seg.object@, seg.code_index as nat, start as nat, end as nat));
            assert(ranges_view(out@) =~= keep_nonempty(cands.take(k + 1)));
        }
        k += 1;
    }
    proof {
        assert(cands.take(k as int) =~= cands);
    }
    out
}


// ---------------------------------------------------------------------------
// Words and paragraphs
// ---------------------------------------------------------------------------

/// Unicode `Alphabetic` property of a char, as `char::is_alphabetic` reports
/// it.
pub uninterp spec fn unicode_alphabetic(c: char) -> bool;

/// Unicode numeric property (general categories Nd, Nl, No) of a char, as
/// `char::is_numeric` reports it.
pub uninterp spec fn unicode_numeric(c: char) -> bool;

/// Calls `char::is_alphabetic`; the result is named [`unicode_alphabetic`].
#[verifier::external_body]
fn char_is_alphabetic(c: char) -> (b: bool)
    ensures
        b == unicode_alphabetic(c),
{
    c.is_alphabetic()
}

/// Calls `char::is_numeric`; the result is named [`unicode_numeric`].
#[verifier::external_body]
fn char_is_numeric(c: char) -> (b: bool)
    ensures
        b == unicode_numeric(c),
{
    c.is_numeric()
}

/// CJK ideographs, CJK symbols/punctuation and half/full-width forms.
pub open spec fn cjk(c: char) -> bool {
    ||| ('\u{4E00}' <= c && c <= '\u{9FFF}')
    ||| ('\u{3400}' <= c && c <= '\u{4DBF}')
    ||| ('\u{F900}' <= c && c <= '\u{FAFF}')
    ||| ('\u{3000}' <= c && c <= '\u{303F}')
    ||| ('\u{FF00}' <= c && c <= '\u{FFEF}')
}

/// Character class for double-click word segmentation: 0 = alphabetic
/// (non-CJK), 1 = numeric, 2 = CJK, 3 = other.
pub open spec fn class_of(c: char) -> u8 {
    if unicode_alphabetic(c) && !cjk(c) {
        0
    } else if unicode_numeric(c) {
        1
    } else if cjk(c) {
        2
    } else {
        3
    }
}

/// Whether `c` lies in one of the CJK blocks word segmentation groups.
pub fn is_cjk(c: char) -> (b: bool)
    ensures
        b == cjk(c),
{
    ('\u{4E00}' <= c && c <= '\u{9FFF}') || ('\u{3400}' <= c && c <= '\u{4DBF}') || ('\u{F900}'
        <= c && c <= '\u{FAFF}') || ('\u{3000}' <= c && c <= '\u{303F}') || ('\u{FF00}' <= c && c
        <= '\u{FFEF}')
}

/// Character class for double-click word segmentation (runs of one class
/// form a word). 0 = alphabetic, 1 = numeric, 2 = CJK ideograph, 3 = other.
pub fn char_class(c: char) -> (k: u8)
    ensures
        k == class_of(c),
{
    if char_is_alphabetic(c) && !is_cjk(c) {
        0
    } else if char_is_numeric(c) {
        1
    } else if is_cjk(c) {
        2
    } else {
        3
    }
}

/// How a char is classed for word segmentation: an alphabetic char outside
/// the CJK blocks is a letter; any other numeric char is a digit (wherever it
/// lies, full-width digits included); a remaining char in the CJK blocks is
/// CJK; anything else is "other".
pub proof fn lemma_char_class_cases(c: char)
    ensures
        unicode_alphabetic(c) && !cjk(c) ==> class_of(c) == 0,
        unicode_numeric(c) && !unicode_alphabetic(c) ==> class_of(c) == 1,
        unicode_numeric(c) && !cjk(c) ==> class_of(c) != 2 && class_of(c) != 3,
        cjk(c) && !unicode_numeric(c) ==> class_of(c) == 2,
        !unicode_alphabetic(c) && !unicode_numeric(c) && !cjk(c) ==> class_of(c) == 3,
        class_of(c) <= 3,
{
}

/// `[start, end)` is the maximal run of chars of the class of `chars[idx]`
/// around `idx`.
pub open spec fn is_class_run(chars: Seq<char>, idx: int, start: int, end: int) -> bool {
    &&& 0 <= start <= idx < end <= chars.len()
    &&& forall|i: int| start <= i < end ==> class_of(#[trigger] chars[i]) == class_of(chars[idx])
    &&& (start == 0 || class_of(chars[start - 1]) != class_of(chars[idx]))
    &&& (end == chars.len() || class_of(chars[end]) != class_of(chars[idx]))
}

/// What a double-click at `hit` selects: nothing when the hit's object or
/// code does not exist; for a code without text, the whole code (if it has
/// any glyph); otherwise one range, the maximal run of the clicked char's
/// class (the char before the caret when the offset is past the end).
pub open spec fn is_word_selection(p: Page, hit: TextHit, r: Seq<RangeView>) -> bool {
    match find_text_object(p, hit.object@) {
        None => r.len() == 0,
        Some(t) => if hit.code_index >= t.codes@.len() {
            r.len() == 0
        } else {
            let code = t.codes@[hit.code_index as int];
            let chars = code.text@;
            if chars.len() == 0 {
                if code_len(code) > 0 {
                    r == seq![(hit.object@, hit.code_index as nat, 0nat, code_len(code))]
                } else {
                    r.len() == 0
                }
            } else {
                let idx = if hit.char_offset < chars.len() {
                    hit.char_offset as int
                } else {
                    chars.len() - 1
                };
                &&& r.len() == 1
                &&& r[0].0 == hit.object@
                &&& r[0].1 == hit.code_index
                &&& is_class_run(chars, idx, r[0].2 as int, r[0].3 as int)
            }
        },
    }
}

/// A word is determined by its click position: two maximal class runs
/// around the same char are the same run.
pub proof fn lemma_class_run_unique(chars: Seq<char>, idx: int, s1: int, e1: int, s2: int, e2: int)
    requires
        is_class_run(chars, idx, s1, e1),
        is_class_run(chars, idx, s2, e2),
    ensures
        s1 == s2,
        e1 == e2,
{
    if s1 < s2 {
        assert(class_of(chars[s2 - 1]) == class_of(chars[idx]));
    }
    if s2 < s1 {
        assert(class_of(chars[s1 - 1]) == class_of(chars[idx]));
    }
    if e1 < e2 {
        assert(class_of(chars[e1]) == class_of(chars[idx]));
    }
    if e2 < e1 {
        assert(class_of(chars[e2]) == class_of(chars[idx]));
    }
}

/// The chars of a string, in order.
fn text_chars(s: &String) -> (v: Vec<char>)
    ensures
        v@ == s@,
{
    let t = s.as_str();
    let n = t.unicode_len();
    let mut v: Vec<char> = Vec::new();
    let mut i: usize = 0;
    while i < n
        invariant
            t@ == s@,
            n == s@.len(),
            i <= n,
            v@ == s@.take(i as int),
        decreases n - i,
    {
        v.push(t.get_char(i));
        proof {
            assert(v@ =~= s@.take(i + 1));
        }
        i += 1;
    }
    proof {
        assert(s@.take(n as int) =~= s@);
    }
    v
}

/// Double-click word: the maximal run of one char class around the hit
/// character, inside the hit's TextCode.
pub fn word_range_at(page: &Page, hit: &TextHit) -> (r: Vec<BodyTextRange>)
    ensures
        is_word_selection(*page, *hit, ranges_view(r@)),
{
    let t = match find_object(page, &hit.object) {
        Some(t) => t,
        None => {
            return Vec::new();
        },
    };
    if hit.code_index >= t.codes.len() {
        return Vec::new();
    }
    let code = &t.codes[hit.code_index];
    let chars = text_chars(&code.text);
    if chars.len() == 0 {
        let n = code_char_count(code);
        if n > 0 {
            let r = vec![
                BodyTextRange {
                    object: hit.object.clone(),
                    code_index: hit.code_index,
                    start: 0,
                    end: n,
                },
            ];
            proof {
                assert(ranges_view(r@) =~= seq![
                    (hit.object@, hit.code_index as nat, 0nat, code_len(*code)),
                ]);
            }
            return r;
        } else {
            return Vec::new();
        }
    }
    let n = chars.len();
    let idx = if hit.char_offset < n {
        hit.char_offset
    } else {
        n - 1
    };
    let class = char_class(chars[idx]);
    let mut start = idx;
    while start > 0 && char_class(chars[start - 1]) == class
        invariant
            start <= idx < n,
            n == chars@.len(),
            class == class_of(chars@[idx as int]),
            forall|i: int| start <= i <= idx ==> class_of(#[trigger] chars@[i]) == class,
        decreases start,
    {
        start -= 1;
    }
    let mut end = idx + 1;
    while end < n && char_class(chars[end]) == class
        invariant
            idx < end <= n,
            n == chars@.len(),
            class == class_of(chars@[idx as int]),
            forall|i: int| idx <= i < end ==> class_of(#[trigger] chars@[i]) == class,
        decreases n - end,
    {
        end += 1;
    }
    let r = vec![
        BodyTextRange { object: hit.object.clone(), code_index: hit.code_index, start, end },
    ];
    proof {
        assert(ranges_view(r@)[0] == r@[0]@);
        assert(is_class_run(code.text@, idx as int, start as int, end as int));
    }
    r
}

/// What a triple-click at `hit` selects: every non-empty code of the hit's
/// text object, whole.
pub open spec fn paragraph_ranges(p: Page, hit: TextHit) -> Seq<RangeView> {
    match find_text_object(p, hit.object@) {
        None => Seq::empty(),
        Some(t) => keep_nonempty(
            Seq::new(
                t.codes@.len(),
                |ci: int| (hit.object@, ci as nat, 0nat, code_len(t.codes@[ci])),
            ),
        ),
    }
}

/// Triple-click paragraph: every TextCode of the hit's TextObject, full
/// content.
pub fn paragraph_range_at(page: &Page, hit: &TextHit) -> (r: Vec<BodyTextRange>)
    ensures
        ranges_view(r@) == paragraph_ranges(*page, *hit),
{
    let t = match find_object(page, &hit.object) {
        Some(t) => t,
        None => {
            return Vec::new();
        },
    };
    let ghost cands = Seq::new(
        t.codes@.len(),
        |ci: int| (hit.object@, ci as nat, 0nat, code_len(t.codes@[ci])),
    );
    let mut out: Vec<BodyTextRange> = Vec::new();
    let mut ci: usize = 0;
    while ci < t.codes.len()
        invariant
            ci <= t.codes@.len(),
            cands == Seq::new(
                t.codes@.len(),
                |ci: int| (hit.object@, ci as nat, 0nat, code_len(t.codes@[ci])),
            ),
            ranges_view(out@) == keep_nonempty(cands.take(ci as int)),
        decreases t.codes@.len() - ci,
    {
        let n = code_char_count(&t.codes[ci]);
        if n > 0 {
            out.push(
                BodyTextRange { object: hit.object.clone(), code_index: ci, start: 0, end: n },
            );
        }
        proof {
            assert(cands.take(ci + 1).drop_last() =~= cands.take(ci as int));
            assert(cands.take(ci + 1).last() == cands[ci as int]);
            assert(ranges_view(out@) =~= keep_nonempty(cands.take(ci + 1)));
        }
        ci += 1;
    }
    proof {
        assert(cands.take(ci as int) =~= cands);
    }
    out
}

} // verus!
