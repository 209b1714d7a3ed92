//! The output registry: an ordered collection of display rectangles with the
//! point-in-output query and the closest-neighbor-in-direction query.

use vstd::prelude::*;

use crate::geometry::Dir;
use crate::geometry::Mouse;
use crate::geometry::Window;

verus! {

/// A candidate output for a warp in the given direction: its facing edge is
/// at or beyond the cursor, measured against the motion.
pub open spec fn spec_admissible(dir: Dir, w: Window, m: Mouse) -> bool {
    match dir {
        Dir::Up => w.y <= m.y,
        Dir::Down => w.spec_border_y() >= m.y,
        Dir::Left => w.spec_border_x() <= m.x,
        Dir::Right => w.x >= m.x,
    }
}

/// The coordinate of the edge that the direction-specific ordering compares:
/// the top edge for Up, the bottom edge for Down, the right edge for Left,
/// and the left edge for Right.
pub open spec fn spec_edge_coord(dir: Dir, w: Window) -> int {
    match dir {
        Dir::Up => w.y as int,
        Dir::Down => w.spec_border_y(),
        Dir::Left => w.spec_border_x(),
        Dir::Right => w.x as int,
    }
}

/// Edge coordinate `a` is strictly closer to the cursor than `b` for a move
/// in the given direction: larger for Up and Left, smaller for Down and
/// Right.
pub open spec fn spec_closer(dir: Dir, a: int, b: int) -> bool {
    match dir {
        Dir::Up | Dir::Left => a > b,
        Dir::Down | Dir::Right => a < b,
    }
}

/// The ordered collection of outputs, append-only during setup and queried
/// read-only afterwards. The order is the registration order; it breaks ties
/// between equally close neighbors.
#[derive(Debug)]
pub struct Windows {
    windows: Vec<Window>,
}

impl View for Windows {
    type V = Seq<Window>;

    closed spec fn view(&self) -> Seq<Window> {
        self.windows@
    }
}

impl Windows {
    /// Well-formed: every registered output is well-formed.
    pub open spec fn wf(self) -> bool {
        forall|i: int| 0 <= i < self@.len() ==> (#[trigger] self@[i]).wf()
    }

    /// No registered output contains the point.
    pub open spec fn spec_no_containing(self, x: int, y: int) -> bool {
        forall|j: int| 0 <= j < self@.len() ==> !(#[trigger] self@[j]).spec_contains(x, y)
    }

    /// Output `i` is the first in registration order that contains the point.
    pub open spec fn spec_is_first_containing(self, x: int, y: int, i: int) -> bool {
        &&& 0 <= i < self@.len()
        &&& self@[i].spec_contains(x, y)
        &&& forall|j: int| 0 <= j < i ==> !(#[trigger] self@[j]).spec_contains(x, y)
    }

    /// Among the first `n` outputs, none but possibly `exclude` is a
    /// candidate for a warp in the given direction.
    pub open spec fn spec_no_candidate_upto(self, dir: Dir, m: Mouse, exclude: int, n: int) -> bool {
        forall|j: int|
            0 <= j < n && j != exclude ==> !spec_admissible(dir, #[trigger] self@[j], m)
    }

    /// Among the first `n` outputs, `i` is the closest candidate for a warp
    /// in the given direction, with ties broken in favor of the earliest
    /// registration: no candidate is strictly closer, and `i` is strictly
    /// closer than every earlier candidate.
    pub open spec fn spec_is_closest_upto(
        self,
        dir: Dir,
        m: Mouse,
        exclude: int,
        i: int,
        n: int,
    ) -> bool {
        &&& 0 <= i < n <= self@.len()
        &&& i != exclude
        &&& spec_admissible(dir, self@[i], m)
        &&& forall|j: int|
            0 <= j < n && j != exclude && spec_admissible(dir, #[trigger] self@[j], m)
                ==> !spec_closer(dir, spec_edge_coord(dir, self@[j]), spec_edge_coord(dir, self@[i]))
        &&& forall|j: int|
            0 <= j < i && j != exclude && spec_admissible(dir, #[trigger] self@[j], m)
                ==> spec_closer(dir, spec_edge_coord(dir, self@[i]), spec_edge_coord(dir, self@[j]))
    }

    /// No registered output but possibly `exclude` is a candidate for a warp
    /// in the given direction.
    pub open spec fn spec_no_candidate(self, dir: Dir, m: Mouse, exclude: int) -> bool {
        self.spec_no_candidate_upto(dir, m, exclude, self@.len() as int)
    }

    /// Output `i` is the closest candidate among all registered outputs.
    pub open spec fn spec_is_closest(self, dir: Dir, m: Mouse, exclude: int, i: int) -> bool {
        self.spec_is_closest_upto(dir, m, exclude, i, self@.len() as int)
    }

    pub fn new() -> (w: Windows)
        ensures
            w@ =~= Seq::<Window>::empty(),
            w.wf(),
    {
        Windows { windows: Vec::new() }
    }

    pub fn add(&mut self, window: Window)
        requires
            old(self).wf(),
            window.wf(),
        ensures
            final(self)@ == old(self)@.push(window),
            final(self).wf(),
    {
        self.windows.push(window);
        proof {
            assert forall|i: int| 0 <= i < self@.len() implies (#[trigger] self@[i]).wf() by {
                if i < old(self)@.len() {
                    assert(self@[i] == old(self)@[i]);
                } else {
                    assert(self@[i] == window);
                }
            }
        }
    }

    pub fn remove(&mut self, index: usize)
        requires
            old(self).wf(),
            index < old(self)@.len(),
        ensures
            final(self)@ == old(self)@.remove(index as int),
            final(self).wf(),
    {
        self.windows.remove(index);
        proof {
            assert forall|i: int| 0 <= i < self@.len() implies (#[trigger] self@[i]).wf() by {
                if i < index {
                    assert(self@[i] == old(self)@[i]);
                } else {
                    assert(self@[i] == old(self)@[i + 1]);
                }
            }
        }
    }

    /// How many outputs are registered.
    pub fn len(&self) -> (n: usize)
        ensures
            n == self@.len(),
    {
        self.windows.len()
    }

    /// The output at the given registration index.
    pub fn get(&self, index: usize) -> (w: &Window)
        requires
            index < self@.len(),
        ensures
            *w == self@[index as int],
    {
        &self.windows[index]
    }

    /// The first output in registration order that contains the point, as
    /// its registration index, or `None` when the point is outside every
    /// registered output.
    pub fn contains(&self, x: i32, y: i32) -> (r: Option<usize>)
        requires
            self.wf(),
        ensures
            r matches Some(i) ==> self.spec_is_first_containing(x as int, y as int, i as int),
            r is None ==> self.spec_no_containing(x as int, y as int),
    {
        let mut k: usize = 0;
        while k < self.windows.len()
            invariant
                self.wf(),
                k <= self@.len(),
                self.windows@ == self@,
                forall|j: int| 0 <= j < k ==> !(#[trigger] self@[j]).spec_contains(x as int, y as int),
            decreases self@.len() - k,
        {
            if self.windows[k].contains(x, y) {
                return Some(k);
            }
            k = k + 1;
        }
        None
    }

    /// The first output in registration order that contains the cursor.
    pub fn contains_mouse(&self, mouse: &Mouse) -> (r: Option<usize>)
        requires
            self.wf(),
        ensures
            r matches Some(i) ==> self.spec_is_first_containing(
                mouse.x as int,
                mouse.y as int,
                i as int,
            ),
            r is None ==> self.spec_no_containing(mouse.x as int, mouse.y as int),
    {
        self.contains(mouse.x, mouse.y)
    }

    /// The closest output in the given direction, as its registration index:
    /// among the outputs other than `exclude` whose facing edge is at or
    /// beyond the cursor, the one whose facing edge is nearest, the earliest
    /// registered on a tie. `None` when no output qualifies — the cursor is
    /// at the outer edge of the whole virtual desktop.
    pub fn find_closest_output(&self, dir: Dir, mouse: &Mouse, exclude: usize) -> (r: Option<
        usize,
    >)
        requires
            self.wf(),
        ensures
            r matches Some(i) ==> self.spec_is_closest(dir, *mouse, exclude as int, i as int),
            r is None ==> self.spec_no_candidate(dir, *mouse, exclude as int),
    {
        let mut best: Option<usize> = None;
        let mut k: usize = 0;
        while k < self.windows.len()
            invariant
                self.wf(),
                k <= self@.len(),
                self.windows@ == self@,
                match best {
                    Some(b) => self.spec_is_closest_upto(
                        dir,
                        *mouse,
                        exclude as int,
                        b as int,
                        k as int,
                    ),
                    None => self.spec_no_candidate_upto(dir, *mouse, exclude as int, k as int),
                },
            decreases self@.len() - k,
        {
            if k != exclude {
                let window = &self.windows[k];
                let admissible: bool = match dir {
                    Dir::Up => window.y <= mouse.y,
                    Dir::Down => window.border_y() >= mouse.y,
                    Dir::Left => window.border_x() <= mouse.x,
                    Dir::Right => window.x >= mouse.x,
                };
                if admissible {
                    match best {
                        Some(b) => {
                            let best_window = &self.windows[b];
                            let closer: bool = match dir {
                                Dir::Up => window.y > best_window.y,
                                Dir::Down => window.border_y() < best_window.border_y(),
                                Dir::Left => window.border_x() > best_window.border_x(),
                                Dir::Right => window.x < best_window.x,
                            };
                            if closer {
                                best = Some(k);
                            }
                        },
                        None => {
                            best = Some(k);
                        },
                    }
                }
            }
            k = k + 1;
        }
        best
    }
}

/// Ties go to the earlier registration: when the chosen closest output
/// shares its qualifying edge coordinate with another candidate, the chosen
/// one was registered first.
pub proof fn lemma_tie_broken_by_registration_order(
    ws: Windows,
    dir: Dir,
    m: Mouse,
    exclude: int,
    i: int,
    j: int,
)
    requires
        ws.spec_is_closest(dir, m, exclude, i),
        0 <= j < ws@.len(),
        j != exclude,
        j != i,
        spec_admissible(dir, ws@[j], m),
        spec_edge_coord(dir, ws@[j]) == spec_edge_coord(dir, ws@[i]),
    ensures
        i < j,
{
}

} // verus!
