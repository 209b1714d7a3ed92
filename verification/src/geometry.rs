//! Geometry primitives: cursor points, output rectangles, and the
//! border-touch direction flags.

use vstd::prelude::*;

verus! {

/// A cursor position in the shared virtual desktop coordinate space.
#[derive(Clone, Copy, Debug, PartialEq, Eq, Structural)]
pub struct Mouse {
    pub x: i32,
    pub y: i32,
}

impl Mouse {
    pub fn new(x: i32, y: i32) -> (m: Mouse)
        ensures
            m.x == x,
            m.y == y,
    {
        Mouse { x, y }
    }

    pub fn update(&mut self, x: i32, y: i32)
        ensures
            final(self).x == x,
            final(self).y == y,
    {
        self.x = x;
        self.y = y;
    }
}

/// One single warp direction.
#[derive(Clone, Copy, Debug, PartialEq, Eq, Structural)]
pub enum Dir {
    Up,
    Down,
    Left,
    Right,
}

/// The set of borders a point lies on, as independent flags: a corner point
/// lies on two borders at once, so the flags are not mutually exclusive.
#[derive(Clone, Copy, Debug, PartialEq, Eq, Structural)]
pub struct Dirs {
    pub up: bool,
    pub down: bool,
    pub left: bool,
    pub right: bool,
}

impl Dirs {
    /// How many direction flags are set.
    pub open spec fn spec_count(self) -> int {
        (if self.up { 1int } else { 0int }) + (if self.down { 1int } else { 0int })
            + (if self.left { 1int } else { 0int }) + (if self.right { 1int } else { 0int })
    }

    /// The one direction of this flag set, if exactly one flag is set.
    pub open spec fn spec_single(self) -> Option<Dir> {
        if self.up && !self.down && !self.left && !self.right {
            Some(Dir::Up)
        } else if !self.up && self.down && !self.left && !self.right {
            Some(Dir::Down)
        } else if !self.up && !self.down && self.left && !self.right {
            Some(Dir::Left)
        } else if !self.up && !self.down && !self.left && self.right {
            Some(Dir::Right)
        } else {
            None
        }
    }

    /// Resolves the flag set to a single direction: `Some` exactly when one
    /// flag is set. A corner touch (two flags) or no touch resolves to `None`.
    pub fn single_direction(&self) -> (r: Option<Dir>)
        ensures
            r == self.spec_single(),
    {
        match (self.up, self.down, self.left, self.right) {
            (true, false, false, false) => Some(Dir::Up),
            (false, true, false, false) => Some(Dir::Down),
            (false, false, true, false) => Some(Dir::Left),
            (false, false, false, true) => Some(Dir::Right),
            _ => None,
        }
    }
}

/// An output: a display rectangle in the virtual desktop coordinate space.
#[derive(Debug)]
pub struct Window {
    pub name: String,
    pub width: i32,
    pub height: i32,
    pub x: i32,
    pub y: i32,
}

impl Window {
    /// Well-formed: positive extent, and the far edges still fit in the
    /// coordinate type.
    pub open spec fn wf(self) -> bool {
        &&& 0 < self.width
        &&& 0 < self.height
        &&& self.x + self.width <= i32::MAX
        &&& self.y + self.height <= i32::MAX
    }

    /// The x coordinate of the right edge.
    pub open spec fn spec_border_x(self) -> int {
        self.x + self.width
    }

    /// The y coordinate of the bottom edge.
    pub open spec fn spec_border_y(self) -> int {
        self.y + self.height
    }

    /// Containment, inclusive on all four edges.
    pub open spec fn spec_contains(self, x: int, y: int) -> bool {
        self.x <= x <= self.spec_border_x() && self.y <= y <= self.spec_border_y()
    }

    pub fn new(name: &str, width: i32, height: i32, x: i32, y: i32) -> (w: Window)
        ensures
            w.name@ == name@,
            w.width == width,
            w.height == height,
            w.x == x,
            w.y == y,
    {
        Window { name: name.to_owned(), width, height, x, y }
    }

    pub fn update(&mut self, width: i32, height: i32, x: i32, y: i32)
        ensures
            final(self).name == old(self).name,
            final(self).width == width,
            final(self).height == height,
            final(self).x == x,
            final(self).y == y,
    {
        self.width = width;
        self.height = height;
        self.x = x;
        self.y = y;
    }

    pub fn border_x(&self) -> (r: i32)
        requires
            self.wf(),
        ensures
            r == self.spec_border_x(),
    {
        self.x + self.width
    }

    pub fn border_y(&self) -> (r: i32)
        requires
            self.wf(),
        ensures
            r == self.spec_border_y(),
    {
        self.y + self.height
    }

    pub fn contains(&self, x: i32, y: i32) -> (r: bool)
        requires
            self.wf(),
        ensures
            r == self.spec_contains(x as int, y as int),
    {
        x >= self.x && x <= self.border_x() && y >= self.y && y <= self.border_y()
    }

    pub fn contains_mouse(&self, mouse: &Mouse) -> (r: bool)
        requires
            self.wf(),
        ensures
            r == self.spec_contains(mouse.x as int, mouse.y as int),
    {
        self.contains(mouse.x, mouse.y)
    }

    /// The point lies exactly on the top edge, within its horizontal span.
    pub open spec fn spec_on_up(self, x: int, y: int) -> bool {
        y == self.y && self.x <= x <= self.spec_border_x()
    }

    /// The point lies exactly on the bottom edge, within its horizontal span.
    pub open spec fn spec_on_down(self, x: int, y: int) -> bool {
        y == self.spec_border_y() && self.x <= x <= self.spec_border_x()
    }

    /// The point lies exactly on the left edge, within its vertical span.
    pub open spec fn spec_on_left(self, x: int, y: int) -> bool {
        x == self.x && self.y <= y <= self.spec_border_y()
    }

    /// The point lies exactly on the right edge, within its vertical span.
    pub open spec fn spec_on_right(self, x: int, y: int) -> bool {
        x == self.spec_border_x() && self.y <= y <= self.spec_border_y()
    }

    /// The set of borders the point lies on.
    pub open spec fn spec_border_dirs(self, x: int, y: int) -> Dirs {
        Dirs {
            up: self.spec_on_up(x, y),
            down: self.spec_on_down(x, y),
            left: self.spec_on_left(x, y),
            right: self.spec_on_right(x, y),
        }
    }

    /// The point is one of the four corner points.
    pub open spec fn spec_is_corner(self, x: int, y: int) -> bool {
        (x == self.x || x == self.spec_border_x()) && (y == self.y || y == self.spec_border_y())
    }

    /// The point lies on at least one border.
    pub open spec fn spec_on_any_border(self, x: int, y: int) -> bool {
        let d = self.spec_border_dirs(x, y);
        d.up || d.down || d.left || d.right
    }

    /// The point is contained with no border contact.
    pub open spec fn spec_strictly_inside(self, x: int, y: int) -> bool {
        self.x < x < self.spec_border_x() && self.y < y < self.spec_border_y()
    }

    /// Which borders of this output the cursor lies on.
    pub fn mouse_on_border(&self, mouse: &Mouse) -> (d: Dirs)
        requires
            self.wf(),
        ensures
            d == self.spec_border_dirs(mouse.x as int, mouse.y as int),
    {
        let up = mouse.y == self.y && mouse.x >= self.x && mouse.x <= self.border_x();
        let down = mouse.y == self.border_y() && mouse.x >= self.x && mouse.x <= self.border_x();
        let left = mouse.x == self.x && mouse.y >= self.y && mouse.y <= self.border_y();
        let right = mouse.x == self.border_x() && mouse.y >= self.y && mouse.y <= self.border_y();
        Dirs { up, down, left, right }
    }
}

/// The text for a flag set: the names of the set flags in the fixed order
/// Up, Down, Left, Right, each followed by one space.
pub open spec fn spec_dir_string(d: Dirs) -> Seq<char> {
    (if d.up {
        "Up "@
    } else {
        Seq::<char>::empty()
    }) + (if d.down {
        "Down "@
    } else {
        Seq::<char>::empty()
    }) + (if d.left {
        "Left "@
    } else {
        Seq::<char>::empty()
    }) + (if d.right {
        "Right "@
    } else {
        Seq::<char>::empty()
    })
}

/// Renders a flag set as text, one name and one trailing space per set flag,
/// in the fixed order Up, Down, Left, Right.
pub fn dir_to_string(dir: &Dirs) -> (s: String)
    ensures
        s@ == spec_dir_string(*dir),
{
    proof {
        reveal_strlit("Up ");
        reveal_strlit("Down ");
        reveal_strlit("Left ");
        reveal_strlit("Right ");
    }
    match (dir.up, dir.down, dir.left, dir.right) {
        (false, false, false, false) => {
            proof {
                reveal_strlit("");
                assert(""@ =~= spec_dir_string(*dir));
            }
            "".to_owned()
        },
        (true, false, false, false) => {
            proof {
                assert("Up "@ =~= spec_dir_string(*dir));
            }
            "Up ".to_owned()
        },
        (false, true, false, false) => {
            proof {
                assert("Down "@ =~= spec_dir_string(*dir));
            }
            "Down ".to_owned()
        },
        (false, false, true, false) => {
            proof {
                assert("Left "@ =~= spec_dir_string(*dir));
            }
            "Left ".to_owned()
        },
        (false, false, false, true) => {
            proof {
                assert("Right "@ =~= spec_dir_string(*dir));
            }
            "Right ".to_owned()
        },
        (true, true, false, false) => {
            proof {
                reveal_strlit("Up Down ");
                assert("Up Down "@ =~= spec_dir_string(*dir));
            }
            "Up Down ".to_owned()
        },
        (true, false, true, false) => {
            proof {
                reveal_strlit("Up Left ");
                assert("Up Left "@ =~= spec_dir_string(*dir));
            }
            "Up Left ".to_owned()
        },
        (true, false, false, true) => {
            proof {
                reveal_strlit("Up Right ");
                assert("Up Right "@ =~= spec_dir_string(*dir));
            }
            "Up Right ".to_owned()
        },
        (false, true, true, false) => {
            proof {
                reveal_strlit("Down Left ");
                assert("Down Left "@ =~= spec_dir_string(*dir));
            }
            "Down Left ".to_owned()
        },
        (false, true, false, true) => {
            proof {
                reveal_strlit("Down Right ");
                assert("Down Right "@ =~= spec_dir_string(*dir));
            }
            "Down Right ".to_owned()
        },
        (false, false, true, true) => {
            proof {
                reveal_strlit("Left Right ");
                assert("Left Right "@ =~= spec_dir_string(*dir));
            }
            "Left Right ".to_owned()
        },
        (true, true, true, false) => {
            proof {
                reveal_strlit("Up Down Left ");
                assert("Up Down Left "@ =~= spec_dir_string(*dir));
            }
            "Up Down Left ".to_owned()
        },
        (true, true, false, true) => {
            proof {
                reveal_strlit("Up Down Right ");
                assert("Up Down Right "@ =~= spec_dir_string(*dir));
            }
            "Up Down Right ".to_owned()
        },
        (true, false, true, true) => {
            proof {
                reveal_strlit("Up Left Right ");
                assert("Up Left Right "@ =~= spec_dir_string(*dir));
            }
            "Up Left Right ".to_owned()
        },
        (false, true, true, true) => {
            proof {
                reveal_strlit("Down Left Right ");
                assert("Down Left Right "@ =~= spec_dir_string(*dir));
            }
            "Down Left Right ".to_owned()
        },
        (true, true, true, true) => {
            proof {
                reveal_strlit("Up Down Left Right ");
                assert("Up Down Left Right "@ =~= spec_dir_string(*dir));
            }
            "Up Down Left Right ".to_owned()
        },
    }
}

/// Any point within the rectangle's span on both axes is contained,
/// inclusive of all four edges and all four corners.
pub proof fn lemma_contains_inside(w: Window, x: int, y: int)
    requires
        w.x <= x <= w.spec_border_x(),
        w.y <= y <= w.spec_border_y(),
    ensures
        w.spec_contains(x, y),
{
}

/// Any point strictly outside the rectangle's span on at least one axis is
/// not contained.
pub proof fn lemma_contains_outside(w: Window, x: int, y: int)
    requires
        x < w.x || x > w.spec_border_x() || y < w.y || y > w.spec_border_y(),
    ensures
        !w.spec_contains(x, y),
{
}

/// A corner point carries exactly two direction flags, a non-corner border
/// point exactly one, and a strictly interior point none.
pub proof fn lemma_border_flag_count(w: Window, x: int, y: int)
    requires
        w.wf(),
    ensures
        w.spec_is_corner(x, y) ==> w.spec_border_dirs(x, y).spec_count() == 2,
        w.spec_on_any_border(x, y) && !w.spec_is_corner(x, y) ==> w.spec_border_dirs(
            x,
            y,
        ).spec_count() == 1,
        w.spec_strictly_inside(x, y) ==> w.spec_border_dirs(x, y).spec_count() == 0,
{
}

} // verus!
