//! Drag-to-reorder of the image list: slots stacked from a container's top,
//! a drop target computed from the pointer, and the move made on release.
use vstd::prelude::*;
use crate::geometry::{clamp, clamp_i64, Pos2, Rect, COORD_LIMIT};

verus! {

/// Width and height of a slot's thumbnail.
pub const SORT_ITEM_WIDTH: i64 = 250;

pub const SORT_ITEM_HEIGHT: i64 = 60;

/// Space kept around a thumbnail inside its slot.
pub const SORT_MARGIN: i64 = 5;

/// Height of one slot: its thumbnail and a margin above and below.
pub const SORT_SLOT: i64 = 70;

/// Width of the list's container.
pub const SORT_PANEL_WIDTH: i64 = 350;

/// How far right of the thumbnails the drop pointer may go.
pub const SORT_REACH: i64 = 25;

/// Most items a list may hold.
pub const SORT_LIMIT: usize = 1000000;

/// The slot a pointer `d` below the container's top points at: `d` over the
/// slot height, rounded to nearest, kept within `[0, n]`.
pub open spec fn target_index_of(d: int, slot: int, n: int) -> int {
    clamp((2 * d + slot) / (2 * slot), 0, n)
}

/// The index the item moved from `from` to slot `target` ends at: removing
/// it first shifts the slots after it up by one.
pub open spec fn dest_index(from: int, target: int) -> int {
    if target <= from {
        target
    } else {
        target - 1
    }
}

/// `s` with the item at `from` moved to slot `target`.
pub open spec fn reordered<T>(s: Seq<T>, from: int, target: int) -> Seq<T> {
    if target == from {
        s
    } else {
        s.remove(from).insert(dest_index(from, target), s[from])
    }
}

pub fn target_index(pointer_y: i64, container_top: i64, slot: i64, n: usize) -> (r: usize)
    requires
        -2 * COORD_LIMIT <= pointer_y <= 2 * COORD_LIMIT,
        -2 * COORD_LIMIT <= container_top <= 2 * COORD_LIMIT,
        1 <= slot <= COORD_LIMIT,
        n <= SORT_LIMIT,
    ensures
        r == target_index_of(pointer_y - container_top, slot as int, n as int),
        r <= n,
{
    let d = pointer_y - container_top;
    if d < 0 {
        assert((2 * d + slot) / (2 * slot) <= 0) by (nonlinear_arith)
            requires
                d < 0,
                1 <= slot,
        ;
        0
    } else {
        let q = (2 * d + slot) / (2 * slot);
        assert(q >= 0) by (nonlinear_arith)
            requires
                q == (2 * d + slot) / (2 * slot),
                d >= 0,
                1 <= slot,
        ;
        if q > n as i64 {
            n
        } else {
            q as usize
        }
    }
}

/// Moves the item at `from` to slot `target`: nothing when the two are the
/// same, else the item is removed and put back at `dest_index`.
pub fn reorder<T>(items: &mut Vec<T>, from: usize, target: usize)
    requires
        from < old(items).len(),
        target <= old(items).len(),
    ensures
        final(items)@ == reordered(old(items)@, from as int, target as int),
{
    if target != from {
        let item = items.remove(from);
        let dest = if target < from { target } else { target - 1 };
        items.insert(dest, item);
    }
}

/// Moving one item to another slot keeps every item, as many times as before,
/// and the items it passes over keep their order: taking the moved item out
/// of the new list gives the old list without it.
pub proof fn lemma_reorder_preserves_items<T>(s: Seq<T>, from: int, target: int)
    requires
        0 <= from < s.len(),
        0 <= target <= s.len(),
    ensures
        reordered(s, from, target).len() == s.len(),
        reordered(s, from, target).to_multiset() == s.to_multiset(),
        target != from ==> reordered(s, from, target)[dest_index(from, target)] == s[from],
        target != from ==> reordered(s, from, target).remove(dest_index(from, target)) == s.remove(from),
{
    if target != from {
        let r = s.remove(from);
        let d = dest_index(from, target);
        let t = r.insert(d, s[from]);
        assert(t.remove(d) =~= r);
        s.to_multiset_ensures();
        r.to_multiset_ensures();
        t.to_multiset_ensures();
        assert(t.to_multiset().remove(s[from]) =~= r.to_multiset());
        assert(s.to_multiset().remove(s[from]) =~= r.to_multiset());
        assert(t.to_multiset().count(s[from]) > 0);
        assert(s.to_multiset().count(s[from]) > 0);
        assert(t.to_multiset() =~= r.to_multiset().insert(s[from]));
        assert(s.to_multiset() =~= r.to_multiset().insert(s[from]));
    }
}

/// Every item of a reordered list was an item of the list before.
pub proof fn lemma_reorder_members<T>(s: Seq<T>, from: int, target: int)
    requires
        0 <= from < s.len(),
        0 <= target <= s.len(),
    ensures
        reordered(s, from, target).len() == s.len(),
        forall|i: int|
            #![trigger reordered(s, from, target)[i]]
            0 <= i < s.len() ==> exists|j: int|
                #![trigger s[j]]
                0 <= j < s.len() && reordered(s, from, target)[i] == s[j],
{
    let t = reordered(s, from, target);
    assert forall|i: int| #![trigger t[i]] 0 <= i < s.len() implies exists|j: int|
        #![trigger s[j]]
        0 <= j < s.len() && t[i] == s[j] by {
        if target != from {
            let r = s.remove(from);
            let d = dest_index(from, target);
            if i == d {
                assert(t[i] == s[from]);
            } else {
                let k = if i < d { i } else { i - 1 };
                let j = if k < from { k } else { k + 1 };
                assert(t[i] == r[k]);
                assert(r[k] == s[j]);
            }
        } else {
            assert(t[i] == s[i]);
        }
    }
}

/// The sorting view: whether it is open, and the drag of one item.
#[derive(Clone, Copy, PartialEq, Eq, Structural, Debug)]
pub struct ImageSortingModify {
    pub is_sorting: bool,
    pub is_draging: bool,
    pub drag_pos: Pos2,
    pub drag_start: Pos2,
    pub from_image: Option<usize>,
}

impl ImageSortingModify {
    pub open spec fn wf(self) -> bool {
        &&& -2 * COORD_LIMIT <= self.drag_pos.y <= 2 * COORD_LIMIT
        &&& -2 * COORD_LIMIT <= self.drag_pos.x <= 2 * COORD_LIMIT
    }
}

impl Default for ImageSortingModify {
    fn default() -> (r: ImageSortingModify)
        ensures
            r.wf(),
            !r.is_sorting,
            !r.is_draging,
            r.from_image.is_none(),
    {
        ImageSortingModify {
            is_sorting: false,
            is_draging: false,
            drag_pos: Pos2 { x: 0, y: 0 },
            drag_start: Pos2 { x: 0, y: 0 },
            from_image: None,
        }
    }
}

/// A pointer event on the slot of item `i` of the sorting view.
#[derive(Clone, Copy, PartialEq, Eq, Structural, Debug)]
pub enum SortEvent {
    Click(usize),
    DragStart(usize),
    DragMove(usize, Pos2),
    DragStop(usize),
}

impl SortEvent {
    /// Whether the event begins a drag.
    pub fn is_start(&self) -> (r: bool)
        ensures
            r == self.is_start_spec(),
    {
        match self {
            SortEvent::DragStart(_) => true,
            _ => false,
        }
    }

    pub open spec fn is_start_spec(self) -> bool {
        self is DragStart
    }

    /// The item is in a list of `n`, the pointer within the board's reach.
    pub open spec fn ok(self, n: int) -> bool {
        match self {
            SortEvent::Click(i) => i < n,
            SortEvent::DragStart(i) => i < n,
            SortEvent::DragMove(i, p) => i < n && p.ok(),
            SortEvent::DragStop(i) => i < n,
        }
    }
}

/// The rectangle of slot `i`'s thumbnail in a container whose top-left
/// corner is `top_left`.
pub open spec fn slot_rect_of(top_left: Pos2, i: int) -> Rect {
    let y = top_left.y + SORT_MARGIN + SORT_SLOT * i;
    Rect {
        min: Pos2 { x: (top_left.x + SORT_MARGIN) as i64, y: y as i64 },
        max: Pos2 {
            x: (top_left.x + SORT_MARGIN + SORT_ITEM_WIDTH) as i64,
            y: (y + SORT_ITEM_HEIGHT) as i64,
        },
    }
}

pub fn slot_rect(top_left: Pos2, i: usize) -> (r: Rect)
    requires
        top_left.ok(),
        i <= SORT_LIMIT,
    ensures
        r == slot_rect_of(top_left, i as int),
{
    let y = top_left.y + SORT_MARGIN + SORT_SLOT * (i as i64);
    Rect {
        min: Pos2 { x: top_left.x + SORT_MARGIN, y },
        max: Pos2 { x: top_left.x + SORT_MARGIN + SORT_ITEM_WIDTH, y: y + SORT_ITEM_HEIGHT },
    }
}

/// The slot the item being dragged would be dropped at.
pub open spec fn drop_target_of(st: ImageSortingModify, top_left: Pos2, n: int) -> int {
    target_index_of(st.drag_pos.y - top_left.y, SORT_SLOT as int, n)
}

/// The sorting view and the list after one event, in a container whose
/// top-left corner is `top_left`. A drag starts at the item's own slot, a
/// move snaps the pointer to the slot it points at, a release moves the item
/// there.
pub open spec fn sort_after_event<T>(
    st: ImageSortingModify,
    s: Seq<T>,
    top_left: Pos2,
    e: SortEvent,
) -> (ImageSortingModify, Seq<T>) {
    let n = s.len() as int;
    match e {
        SortEvent::Click(i) => (ImageSortingModify { from_image: Some(i), ..st }, s),
        SortEvent::DragStart(i) => (
            ImageSortingModify {
                from_image: Some(i),
                is_draging: true,
                drag_start: Pos2 {
                    x: (top_left.x + 2 * SORT_MARGIN + SORT_ITEM_WIDTH) as i64,
                    y: (top_left.y + SORT_SLOT * i + SORT_ITEM_HEIGHT / 2) as i64,
                },
                drag_pos: Pos2 {
                    x: (top_left.x + SORT_MARGIN) as i64,
                    y: (top_left.y + SORT_SLOT * i) as i64,
                },
                ..st
            },
            s,
        ),
        SortEvent::DragMove(i, p) => {
            if st.from_image == Some(i) && st.is_draging {
                let py = clamp(p.y as int, top_left.y as int, top_left.y + SORT_SLOT * n);
                let t = target_index_of(py - top_left.y, SORT_SLOT as int, n);
                let px = clamp(p.x as int, top_left.x as int, top_left.x + SORT_PANEL_WIDTH);
                let x = clamp(
                    px,
                    top_left.x + SORT_MARGIN,
                    top_left.x + 2 * SORT_MARGIN + SORT_ITEM_WIDTH + SORT_REACH,
                );
                (
                    ImageSortingModify {
                        drag_pos: Pos2 { x: x as i64, y: (SORT_SLOT * t + top_left.y) as i64 },
                        ..st
                    },
                    s,
                )
            } else {
                (st, s)
            }
        },
        SortEvent::DragStop(i) => {
            if st.from_image == Some(i) {
                (
                    ImageSortingModify { is_draging: false, ..st },
                    reordered(s, i as int, drop_target_of(st, top_left, n)),
                )
            } else {
                (st, s)
            }
        },
    }
}

impl ImageSortingModify {
    /// The slot the item being dragged would be dropped at.
    pub fn drop_target(&self, top_left: Pos2, n: usize) -> (r: usize)
        requires
            self.wf(),
            top_left.ok(),
            n <= SORT_LIMIT,
        ensures
            r == drop_target_of(*self, top_left, n as int),
            r <= n,
    {
        target_index(self.drag_pos.y, top_left.y, SORT_SLOT, n)
    }

    /// Handles one pointer event on the sorting view of `items`.
    pub fn sort_event<T>(&mut self, items: &mut Vec<T>, top_left: Pos2, e: SortEvent)
        requires
            old(self).wf(),
            old(items).len() <= SORT_LIMIT,
            top_left.ok(),
            e.ok(old(items).len() as int),
        ensures
            (*final(self), final(items)@) == sort_after_event(*old(self), old(items)@, top_left, e),
            final(self).wf(),
            final(items).len() == old(items).len(),
    {
        let n = items.len();
        match e {
            SortEvent::Click(i) => {
                self.from_image = Some(i);
            },
            SortEvent::DragStart(i) => {
                self.from_image = Some(i);
                self.is_draging = true;
                self.drag_start = Pos2 {
                    x: top_left.x + 2 * SORT_MARGIN + SORT_ITEM_WIDTH,
                    y: top_left.y + SORT_SLOT * (i as i64) + SORT_ITEM_HEIGHT / 2,
                };
                self.drag_pos = Pos2 { x: top_left.x + SORT_MARGIN, y: top_left.y + SORT_SLOT * (i as i64) };
            },
            SortEvent::DragMove(i, p) => {
                if self.from_image == Some(i) && self.is_draging {
                    let py = clamp_i64(p.y, top_left.y, top_left.y + SORT_SLOT * (n as i64));
                    let t = target_index(py, top_left.y, SORT_SLOT, n);
                    let px = clamp_i64(p.x, top_left.x, top_left.x + SORT_PANEL_WIDTH);
                    let x = clamp_i64(
                        px,
                        top_left.x + SORT_MARGIN,
                        top_left.x + 2 * SORT_MARGIN + SORT_ITEM_WIDTH + SORT_REACH,
                    );
                    self.drag_pos = Pos2 { x, y: SORT_SLOT * (t as i64) + top_left.y };
                }
            },
            SortEvent::DragStop(i) => {
                if self.from_image == Some(i) {
                    let t = target_index(self.drag_pos.y, top_left.y, SORT_SLOT, n);
                    self.is_draging = false;
                    reorder(items, i, t);
                }
            },
        }
    }
}

/// Whether slot `i` is drawn with its bottom shortened (the drop target is
/// just below it) and with its top pushed down (the drop target is it).
pub fn slot_gap(i: usize, target: usize, n: usize) -> (r: (bool, bool))
    ensures
        r.0 == (target > 0 && i == target - 1),
        r.1 == (target < n && i == target),
{
    (target > 0 && i == target - 1, target < n && i == target)
}

} // verus!
