use vstd::prelude::*;

verus! {

/// Represents the top-left corner of the viewport on the infinite canvas.
#[derive(PartialEq, Eq, Clone, Copy, Debug, Structural)]
pub struct ViewPos {
    pub x: usize,
    pub y: usize,
}

impl ViewPos {
    /// Default viewport position.
    pub fn new() -> (r: ViewPos)
        ensures
            r == (ViewPos { x: 0, y: 0 }),
    {
        ViewPos { x: 0, y: 0 }
    }
}

#[derive(PartialEq, Eq, Debug, Structural)]
pub struct ViewportState {
    /// The position of the viewport (camera) on the infinite canvas.
    /// Position can only be positive.
    pub view_pos: ViewPos,
    /// The current width of the terminal screen in cells. Updated on every frame.
    pub screen_width: usize,
    /// The current height of the terminal screen in cells. Updated on every frame.
    pub screen_height: usize,
}

/// The center of a viewport at `pos` of the given screen size.
pub open spec fn spec_center(pos: ViewPos, width: usize, height: usize) -> (int, int) {
    (pos.x + width / 2, pos.y + height / 2)
}

impl ViewportState {
    pub fn new() -> (r: Self)
        ensures
            r == (ViewportState { view_pos: ViewPos { x: 0, y: 0 }, screen_width: 0, screen_height: 0 }),
    {
        Self { view_pos: ViewPos::new(), screen_width: 0, screen_height: 0 }
    }

    /// Get the center coordinates of the viewport
    pub fn center(&self) -> (r: (usize, usize))
        requires
            self.view_pos.x + self.screen_width / 2 <= usize::MAX,
            self.view_pos.y + self.screen_height / 2 <= usize::MAX,
        ensures
            (r.0 as int, r.1 as int) == spec_center(self.view_pos, self.screen_width, self.screen_height),
    {
        (self.view_pos.x + self.screen_width / 2, self.view_pos.y + self.screen_height / 2)
    }

    /// Convert world to screen coordinates
    pub fn to_screen_coords(&self, p_x: isize, p_y: isize) -> (r: (isize, isize))
        requires
            self.view_pos.x <= isize::MAX,
            self.view_pos.y <= isize::MAX,
            isize::MIN <= p_x - self.view_pos.x,
            isize::MIN <= p_y - self.view_pos.y,
        ensures
            r.0 == p_x - self.view_pos.x,
            r.1 == p_y - self.view_pos.y,
    {
        let p_x = p_x - self.view_pos.x as isize;
        let p_y = p_y - self.view_pos.y as isize;
        (p_x, p_y)
    }
}

} // verus!
