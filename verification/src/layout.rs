//! Redistribution of child geometry when a parent window is resized.
//!
//! Each registered child carries one rule per axis, immutable after
//! registration. On a parent resize the arranger computes, from the delta
//! against the last-known parent size, the new rectangle of every child in
//! registration order; the embedder applies them through the substrate.

use vstd::prelude::*;
use vstd::assert_by_contradiction;
use crate::error::{GuiError, SysError};
use crate::geom::{Extent, Rect};
use crate::handle::Hwnd;

verus! {

/// Horizontal behavior of a child when the parent's width changes.
#[derive(Clone, Copy, Debug, PartialEq, Eq, Structural)]
pub enum Horz {
    /// No change on this axis.
    Fixed,
    /// The origin shifts by the full width delta; the extent is unchanged.
    Repos,
    /// The extent grows by the full width delta; the origin is unchanged.
    Resize,
}

/// Vertical behavior of a child when the parent's height changes.
#[derive(Clone, Copy, Debug, PartialEq, Eq, Structural)]
pub enum Vert {
    /// No change on this axis.
    Fixed,
    /// The origin shifts by the full height delta; the extent is unchanged.
    Repos,
    /// The extent grows by the full height delta; the origin is unchanged.
    Resize,
}

/// One registered child and its two axis rules.
#[derive(Clone, Copy, Debug, PartialEq, Eq, Structural)]
pub struct ChildLayout {
    pub hchild: Hwnd,
    pub horz: Horz,
    pub vert: Vert,
}

/// The new horizontal origin of a child under rule `h` and width delta `dw`.
pub open spec fn moved_x(x: int, h: Horz, dw: int) -> int {
    if h is Repos {
        x + dw
    } else {
        x
    }
}

/// The new width of a child under rule `h` and width delta `dw`.
pub open spec fn sized_cx(cx: int, h: Horz, dw: int) -> int {
    if h is Resize {
        cx + dw
    } else {
        cx
    }
}

/// The new vertical origin of a child under rule `v` and height delta `dh`.
pub open spec fn moved_y(y: int, v: Vert, dh: int) -> int {
    if v is Repos {
        y + dh
    } else {
        y
    }
}

/// The new height of a child under rule `v` and height delta `dh`.
pub open spec fn sized_cy(cy: int, v: Vert, dh: int) -> int {
    if v is Resize {
        cy + dh
    } else {
        cy
    }
}

pub open spec fn fits_i32(v: int) -> bool {
    -0x8000_0000 <= v < 0x8000_0000
}

/// Whether the updated rectangle of a child stays within 32-bit coordinates.
pub open spec fn update_fits(r: Rect, c: ChildLayout, dw: int, dh: int) -> bool {
    &&& fits_i32(moved_x(r.x as int, c.horz, dw))
    &&& fits_i32(sized_cx(r.cx as int, c.horz, dw))
    &&& fits_i32(moved_y(r.y as int, c.vert, dh))
    &&& fits_i32(sized_cy(r.cy as int, c.vert, dh))
}

/// The rectangle a child's rules yield for parent deltas `(dw, dh)`.
pub open spec fn rect_update(r: Rect, c: ChildLayout, dw: int, dh: int) -> Rect {
    Rect {
        x: moved_x(r.x as int, c.horz, dw) as i32,
        y: moved_y(r.y as int, c.vert, dh) as i32,
        cx: sized_cx(r.cx as int, c.horz, dw) as i32,
        cy: sized_cy(r.cy as int, c.vert, dh) as i32,
    }
}

/// The ordered set of child resize rules of one parent window, plus the
/// parent's last-known client size.
pub struct LayoutArranger {
    children: Vec<ChildLayout>,
    last_size: Option<Extent>,
}

impl LayoutArranger {
    /// The registered children, in registration order.
    pub closed spec fn children(self) -> Seq<ChildLayout> {
        self.children@
    }

    /// The parent client size the next delta will be computed against.
    pub closed spec fn last_size(self) -> Option<Extent> {
        self.last_size
    }

    /// Whether `h` is already registered as a child.
    pub open spec fn has_child(self, h: Hwnd) -> bool {
        exists|i: int| 0 <= i < self.children().len() && self.children()[i].hchild == h
    }

    /// The width delta a resize to `new_size` implies.
    pub open spec fn delta_w(self, new_size: Extent) -> int {
        match self.last_size() {
            Some(s) => new_size.cx - s.cx,
            None => 0,
        }
    }

    /// The height delta a resize to `new_size` implies.
    pub open spec fn delta_h(self, new_size: Extent) -> int {
        match self.last_size() {
            Some(s) => new_size.cy - s.cy,
            None => 0,
        }
    }

    /// An arranger with no children and no recorded parent size.
    pub fn new() -> (r: LayoutArranger)
        ensures
            r.children() == Seq::<ChildLayout>::empty(),
            r.last_size() is None,
    {
        LayoutArranger { children: Vec::new(), last_size: None }
    }

    /// Registers a child with its two axis rules; legal at any time, but a
    /// duplicate child handle is rejected and changes nothing. The parent's
    /// current client size seeds the last-known size on the first
    /// registration.
    pub fn add_child(
        &mut self,
        hchild: Hwnd,
        horz: Horz,
        vert: Vert,
        parent_size: Extent,
    ) -> (r: Result<(), GuiError>)
        ensures
            old(self).has_child(hchild) ==> {
                &&& r == Result::<(), GuiError>::Err(GuiError::DuplicateLayoutChild)
                &&& *final(self) == *old(self)
            },
            !old(self).has_child(hchild) ==> {
                &&& r == Result::<(), GuiError>::Ok(())
                &&& final(self).children() == old(self).children().push(
                    ChildLayout { hchild, horz, vert },
                )
                &&& final(self).last_size() == if old(self).last_size() is Some {
                    old(self).last_size()
                } else {
                    Some(parent_size)
                }
            },
    {
        let mut i: usize = 0;
        while i < self.children.len()
            invariant
                i <= self.children.len(),
                forall|j: int| 0 <= j < i ==> self.children@[j].hchild != hchild,
            decreases self.children.len() - i,
        {
            if self.children[i].hchild == hchild {
                return Err(GuiError::DuplicateLayoutChild);
            }
            i = i + 1;
        }
        self.children.push(ChildLayout { hchild, horz, vert });
        if self.last_size.is_none() {
            self.last_size = Some(parent_size);
        }
        Ok(())
    }

    /// How many children are registered.
    pub fn child_count(&self) -> (r: usize)
        ensures
            r == self.children().len(),
    {
        self.children.len()
    }

    /// Whether every child's updated rectangle stays within 32-bit
    /// coordinates, so that [`LayoutArranger::rearrange`] may be called.
    pub fn updates_fit(&self, new_size: Extent, rects: &Vec<Rect>) -> (r: bool)
        requires
            rects@.len() == self.children().len(),
        ensures
            r == (forall|i: int|
                0 <= i < rects@.len() ==> update_fits(
                    rects@[i],
                    self.children()[i],
                    self.delta_w(new_size),
                    self.delta_h(new_size),
                )),
    {
        let dw: i64;
        let dh: i64;
        match &self.last_size {
            Some(s) => {
                dw = new_size.cx as i64 - s.cx as i64;
                dh = new_size.cy as i64 - s.cy as i64;
            },
            None => {
                dw = 0;
                dh = 0;
            },
        }
        let mut i: usize = 0;
        while i < self.children.len()
            invariant
                dw == self.delta_w(new_size),
                dh == self.delta_h(new_size),
                rects@.len() == self.children().len(),
                i <= self.children.len(),
                forall|k: int|
                    0 <= k < i ==> update_fits(
                        rects@[k],
                        self.children()[k],
                        self.delta_w(new_size),
                        self.delta_h(new_size),
                    ),
            decreases self.children.len() - i,
        {
            let c = self.children[i];
            let r = rects[i];
            let nx: i128 = if matches!(c.horz, Horz::Repos) {
                r.x as i128 + dw as i128
            } else {
                r.x as i128
            };
            let ncx: i128 = if matches!(c.horz, Horz::Resize) {
                r.cx as i128 + dw as i128
            } else {
                r.cx as i128
            };
            let ny: i128 = if matches!(c.vert, Vert::Repos) {
                r.y as i128 + dh as i128
            } else {
                r.y as i128
            };
            let ncy: i128 = if matches!(c.vert, Vert::Resize) {
                r.cy as i128 + dh as i128
            } else {
                r.cy as i128
            };
            let lo: i128 = -0x8000_0000;
            let hi: i128 = 0x7fff_ffff;
            if nx < lo || nx > hi || ncx < lo || ncx > hi || ny < lo || ny > hi || ncy < lo
                || ncy > hi {
                proof {
                    let bad = i as int;
                    assert(!update_fits(
                        rects@[bad],
                        self.children()[bad],
                        self.delta_w(new_size),
                        self.delta_h(new_size),
                    ));
                    assert_by_contradiction!(!(forall|k: int|
                        0 <= k < rects@.len() ==> update_fits(
                            rects@[k],
                            self.children()[k],
                            self.delta_w(new_size),
                            self.delta_h(new_size),
                        )), {
                        assert(update_fits(rects@[bad], self.children()[bad],
                            self.delta_w(new_size), self.delta_h(new_size)));
                        assert(false);
                    });
                }
                return false;
            }
            proof {
                assert(update_fits(
                    rects@[i as int],
                    self.children()[i as int],
                    self.delta_w(new_size),
                    self.delta_h(new_size),
                ));
            }
            i = i + 1;
        }
        true
    }

    /// Computes the new rectangle of every registered child, in registration
    /// order, from the delta between `new_size` and the last-known parent
    /// size, and records `new_size` unconditionally — even with zero
    /// children. `rects` holds each child's current rectangle, in the same
    /// order.
    pub fn rearrange(&mut self, new_size: Extent, rects: &Vec<Rect>) -> (updates: Vec<Rect>)
        requires
            rects@.len() == old(self).children().len(),
            forall|i: int|
                0 <= i < rects@.len() ==> update_fits(
                    rects@[i],
                    old(self).children()[i],
                    old(self).delta_w(new_size),
                    old(self).delta_h(new_size),
                ),
        ensures
            final(self).children() == old(self).children(),
            final(self).last_size() == Some(new_size),
            updates@.len() == rects@.len(),
            forall|i: int|
                0 <= i < rects@.len() ==> updates@[i] == rect_update(
                    rects@[i],
                    old(self).children()[i],
                    old(self).delta_w(new_size),
                    old(self).delta_h(new_size),
                ),
    {
        let ghost dw_spec = old(self).delta_w(new_size);
        let ghost dh_spec = old(self).delta_h(new_size);
        let dw: i64;
        let dh: i64;
        match &self.last_size {
            Some(s) => {
                dw = new_size.cx as i64 - s.cx as i64;
                dh = new_size.cy as i64 - s.cy as i64;
            },
            None => {
                dw = 0;
                dh = 0;
            },
        }
        let mut updates: Vec<Rect> = Vec::new();
        let mut i: usize = 0;
        while i < self.children.len()
            invariant
                *self == *old(self),
                dw == dw_spec,
                dh == dh_spec,
                rects@.len() == self.children@.len(),
                forall|k: int|
                    0 <= k < rects@.len() ==> update_fits(rects@[k], self.children@[k], dw_spec, dh_spec),
                i <= self.children.len(),
                updates@.len() == i,
                forall|k: int|
                    0 <= k < i ==> updates@[k] == rect_update(
                        rects@[k],
                        self.children@[k],
                        dw_spec,
                        dh_spec,
                    ),
            decreases self.children.len() - i,
        {
            let c = self.children[i];
            let r = rects[i];
            let nx: i64 = if matches!(c.horz, Horz::Repos) {
                r.x as i64 + dw
            } else {
                r.x as i64
            };
            let ncx: i64 = if matches!(c.horz, Horz::Resize) {
                r.cx as i64 + dw
            } else {
                r.cx as i64
            };
            let ny: i64 = if matches!(c.vert, Vert::Repos) {
                r.y as i64 + dh
            } else {
                r.y as i64
            };
            let ncy: i64 = if matches!(c.vert, Vert::Resize) {
                r.cy as i64 + dh
            } else {
                r.cy as i64
            };
            updates.push(
                Rect { x: nx as i32, y: ny as i32, cx: ncx as i32, cy: ncy as i32 },
            );
            i = i + 1;
        }
        self.last_size = Some(new_size);
        updates
    }
}

/// The first failure among per-child update outcomes, if any: all updates
/// are attempted and only the earliest failure is surfaced.
pub open spec fn spec_first_failure(s: Seq<Option<SysError>>) -> Option<SysError>
    decreases s.len(),
{
    if s.len() == 0 {
        None
    } else {
        match s[0] {
            Some(e) => Some(e),
            None => spec_first_failure(s.skip(1)),
        }
    }
}

/// Surfaces the first failure among the per-child update outcomes.
pub fn first_failure(outcomes: &Vec<Option<SysError>>) -> (r: Option<SysError>)
    ensures
        r == spec_first_failure(outcomes@),
{
    let mut i: usize = 0;
    proof {
        assert(outcomes@.skip(0) =~= outcomes@);
    }
    while i < outcomes.len()
        invariant
            i <= outcomes.len(),
            forall|j: int| 0 <= j < i ==> outcomes@[j] is None,
            spec_first_failure(outcomes@) == spec_first_failure(outcomes@.skip(i as int)),
        decreases outcomes.len() - i,
    {
        proof {
            assert(outcomes@.skip(i as int)[0] == outcomes@[i as int]);
            assert(outcomes@.skip(i as int).skip(1) =~= outcomes@.skip(i + 1));
        }
        match outcomes[i] {
            Some(e) => {
                return Some(e);
            },
            None => {},
        }
        i = i + 1;
    }
    proof {
        assert(outcomes@.skip(i as int).len() == 0);
    }
    None
}

/// Law: a child registered (Resize, Fixed) gets extent `(cx + dw, cy)` and
/// an unchanged origin from a parent delta `(dw, dh)`.
pub proof fn lemma_resize_fixed_update(r: Rect, c: ChildLayout, dw: int, dh: int)
    requires
        c.horz is Resize,
        c.vert is Fixed,
        update_fits(r, c, dw, dh),
    ensures
        rect_update(r, c, dw, dh) == (Rect { x: r.x, y: r.y, cx: (r.cx + dw) as i32, cy: r.cy }),
{
}

/// Law: a child registered (Repos, Repos) keeps its extent and gets its
/// origin shifted by the full parent delta `(dw, dh)`.
pub proof fn lemma_repos_repos_update(r: Rect, c: ChildLayout, dw: int, dh: int)
    requires
        c.horz is Repos,
        c.vert is Repos,
        update_fits(r, c, dw, dh),
    ensures
        rect_update(r, c, dw, dh) == (Rect {
            x: (r.x + dw) as i32,
            y: (r.y + dh) as i32,
            cx: r.cx,
            cy: r.cy,
        }),
{
}

} // verus!
