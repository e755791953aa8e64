use vstd::prelude::*;

use crate::action::EditorScrollAction;
use crate::vec2::{IVec2, UVec2};

verus! {

/// A coordinate moved by a signed offset, stopping at zero.
pub open spec fn offset_spec(v: int, d: int) -> int {
    if d > 0 {
        v + d
    } else if d < 0 {
        if v < -d { 0 } else { v + d }
    } else {
        v
    }
}

/// Whether moving the view `sc` by a scroll action stays within the range of `usize`.
pub open spec fn scroll_action_ok(action: EditorScrollAction, sc: UVec2) -> bool {
    match action {
        EditorScrollAction::By(offset) => {
            &&& offset.x > isize::MIN
            &&& offset.y > isize::MIN
            &&& offset.x > 0 ==> sc.x + offset.x <= usize::MAX
            &&& offset.y > 0 ==> sc.y + offset.y <= usize::MAX
        },
    }
}

/// The view after a scroll action from `sc`.
pub open spec fn scroll_action_spec(action: EditorScrollAction, sc: UVec2) -> UVec2 {
    match action {
        EditorScrollAction::By(offset) => UVec2 {
            x: offset_spec(sc.x as int, offset.x as int) as usize,
            y: offset_spec(sc.y as int, offset.y as int) as usize,
        },
    }
}

/// The top-left position of the view of a buffer.
pub struct EditorScroll {
    value: UVec2,
}

impl View for EditorScroll {
    type V = UVec2;

    closed spec fn view(&self) -> UVec2 {
        self.value
    }
}

impl EditorScroll {
    /// A view at the start of the buffer.
    pub fn new() -> (r: Self)
        ensures
            r@ == (UVec2 { x: 0, y: 0 }),
    {
        EditorScroll { value: UVec2::zero() }
    }

    /// The top-left position of the view.
    pub fn get(&self) -> (r: UVec2)
        ensures
            r == self@,
    {
        self.value
    }

    pub fn scroll_to_x(&mut self, x: usize)
        ensures
            final(self)@ == (UVec2 { x, y: old(self)@.y }),
    {
        self.value.x = x;
    }

    pub fn scroll_to_y(&mut self, y: usize)
        ensures
            final(self)@ == (UVec2 { x: old(self)@.x, y }),
    {
        self.value.y = y;
    }

    /// Moves the view by `offset`; a coordinate stops at zero.
    pub fn scroll_by(&mut self, offset: IVec2)
        requires
            offset.x > isize::MIN,
            offset.y > isize::MIN,
            offset.x > 0 ==> old(self)@.x + offset.x <= usize::MAX,
            offset.y > 0 ==> old(self)@.y + offset.y <= usize::MAX,
        ensures
            final(self)@.x == offset_spec(old(self)@.x as int, offset.x as int),
            final(self)@.y == offset_spec(old(self)@.y as int, offset.y as int),
    {
        self.value.y = offset_usize(self.value.y, offset.y);
        self.value.x = offset_usize(self.value.x, offset.x);
    }

    pub fn on_action(&mut self, action: EditorScrollAction)
        requires
            scroll_action_ok(action, old(self)@),
        ensures
            final(self)@ == scroll_action_spec(action, old(self)@),
    {
        match action {
            EditorScrollAction::By(offset) => self.scroll_by(offset),
        }
    }
}

/// `v` moved by `d`, stopping at zero.
pub fn offset_usize(v: usize, d: isize) -> (r: usize)
    requires
        d > isize::MIN,
        d > 0 ==> v + d <= usize::MAX,
    ensures
        r == offset_spec(v as int, d as int),
{
    if d > 0 {
        v + d as usize
    } else if d < 0 {
        let m = (-d) as usize;
        if v < m { 0 } else { v - m }
    } else {
        v
    }
}

} // verus!
