//! What a viewport point lands on: the result vocabulary of hit-testing.

use vstd::prelude::*;

verus! {

/// A selection handle of a selected annotation: the 4 corners and 4 edge
/// midpoints of its bounding rect, or the `i`-th vertex of a line, arrow,
/// polygon or polyline. Used both by hit-testing (which handle was grabbed)
/// and by the editor (which resize or vertex drag to perform).
#[derive(Debug, Clone, Copy, PartialEq, Eq, Structural)]
pub enum HandlePos {
    /// North-west corner (top-left).
    Nw,
    /// North-east corner (top-right).
    Ne,
    /// South-west corner (bottom-left).
    Sw,
    /// South-east corner (bottom-right).
    Se,
    /// North edge midpoint (top-center).
    N,
    /// South edge midpoint (bottom-center).
    S,
    /// East edge midpoint (right-center).
    E,
    /// West edge midpoint (left-center).
    W,
    /// The `i`-th vertex of a point-based shape.
    Vertex(usize),
}

/// The topmost thing under a viewport point (annotation and page ids).
#[derive(Debug, Clone, PartialEq, Eq)]
pub enum HitTarget {
    /// An annotation was hit (rendered above the body).
    Annotation(String),
    /// A text annotation was hit at this character offset (reserved for
    /// caret placement).
    AnnotationText(String, usize),
    /// A selection handle on a selected annotation was hit.
    Handle(String, HandlePos),
    /// The page body (no annotation under the point).
    Page(String),
    /// The desk background (no page under the point).
    Empty,
}

/// What the geometry layer measured of one page under a viewport point.
#[derive(Debug, Clone)]
pub struct PageProbe {
    /// The page's id.
    pub page_id: String,
    /// Whether the point lies on the page's box.
    pub contains: bool,
    /// The page's annotations in document (paint) order, each with whether
    /// the point lies on it (later annotations paint over earlier ones).
    pub annotations: Vec<(String, bool)>,
}

/// `k` is the first page whose box holds the point.
pub open spec fn is_first_containing(pages: Seq<PageProbe>, k: int) -> bool {
    &&& 0 <= k < pages.len()
    &&& pages[k].contains
    &&& forall|i: int| 0 <= i < k ==> !(#[trigger] pages[i]).contains
}

/// `j` is the topmost annotation under the point: hit, and nothing painted
/// after it is hit.
pub open spec fn is_topmost_hit(anns: Seq<(String, bool)>, j: int) -> bool {
    &&& 0 <= j < anns.len()
    &&& anns[j].1
    &&& forall|i: int| j < i < anns.len() ==> !(#[trigger] anns[i]).1
}

/// Decide what a viewport point lands on, front to back: a handle of the
/// selected annotation (`handle`, when the point lies on one) wins; else the
/// first page whose box holds the point, where the topmost annotation under
/// the point wins over the page body; else the desk.
pub fn resolve_hit(handle: Option<(String, HandlePos)>, pages: &Vec<PageProbe>) -> (t: HitTarget)
    ensures
        handle matches Some((id, pos)) ==> (t matches HitTarget::Handle(i, p) && i@ == id@ && p
            == pos),
        handle is None && (forall|k: int| 0 <= k < pages@.len() ==> !(#[trigger] pages@[k]).contains)
            ==> t is Empty,
        forall|k: int, j: int|
            handle is None && is_first_containing(pages@, k) && is_topmost_hit(
                pages@[k].annotations@,
                j,
            ) ==> (t matches HitTarget::Annotation(i) && i@ == pages@[k].annotations@[j].0@),
        forall|k: int|
            handle is None && is_first_containing(pages@, k) && (forall|j: int|
                0 <= j < pages@[k].annotations@.len() ==> !(#[trigger] pages@[k].annotations@[j]).1)
                ==> (t matches HitTarget::Page(i) && i@ == pages@[k].page_id@),
{
    if let Some((id, pos)) = handle {
        return HitTarget::Handle(id, pos);
    }
    let mut k: usize = 0;
    while k < pages.len()
        invariant
            handle is None,
            k <= pages@.len(),
            forall|i: int| 0 <= i < k ==> !(#[trigger] pages@[i]).contains,
        decreases pages@.len() - k,
    {
        let page = &pages[k];
        if page.contains {
            let anns = &page.annotations;
            let mut j: usize = anns.len();
            while j > 0
                invariant
                    handle is None,
                    k < pages@.len(),
                    pages@[k as int].contains,
                    *anns == pages@[k as int].annotations,
                    forall|i: int| 0 <= i < k ==> !(#[trigger] pages@[i]).contains,
                    j <= anns@.len(),
                    forall|i: int| j <= i < anns@.len() ==> !(#[trigger] anns@[i]).1,
                decreases j,
            {
                j -= 1;
                if anns[j].1 {
                    let id = anns[j].0.clone();
                    proof {
                        assert(is_topmost_hit(anns@, j as int));
                        assert(is_first_containing(pages@, k as int));
                        assert forall|k2: int, j2: int|
                            is_first_containing(pages@, k2) && is_topmost_hit(
                                pages@[k2].annotations@,
                                j2,
                            ) implies k2 == k && j2 == j by {
                            if k2 < k {
                                assert(!pages@[k2].contains);
                            }
                            if k < k2 {
                                assert(!pages@[k as int].contains);
                            }
                            if j2 < j {
                                assert(!anns@[j as int].1);
                            }
                            if j < j2 {
                                assert(!anns@[j2].1);
                            }
                        }
                    }
                    return HitTarget::Annotation(id);
                }
            }
            let pid = page.page_id.clone();
            proof {
                assert forall|k2: int| is_first_containing(pages@, k2) implies k2 == k by {
                    if k2 < k {
                        assert(!pages@[k2].contains);
                    }
                    if k < k2 {
                        assert(!pages@[k as int].contains);
                    }
                }
                assert forall|k2: int, j2: int|
                    is_first_containing(pages@, k2) implies !is_topmost_hit(
                        pages@[k2].annotations@,
                        j2,
                    ) by {
                    if k2 == k && 0 <= j2 < anns@.len() {
                        assert(!anns@[j2].1);
                    }
                }
            }
            return HitTarget::Page(pid);
        }
        k += 1;
    }
    proof {
        assert forall|k2: int| !is_first_containing(pages@, k2) by {
            if 0 <= k2 < pages@.len() {
                assert(!pages@[k2].contains);
            }
        }
    }
    HitTarget::Empty
}

} // verus!
