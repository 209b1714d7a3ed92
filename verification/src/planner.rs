//! The warp planner: the landing point on the neighboring output, and the
//! per-tick decision that the poll loop driver acts on.

use vstd::prelude::*;

use crate::geometry::Dir;
use crate::geometry::Mouse;
use crate::geometry::Window;
use crate::registry::Windows;

verus! {

/// `v` pinned into `[lo, hi]`.
pub open spec fn spec_clamp(v: int, lo: int, hi: int) -> int {
    if v < lo {
        lo
    } else if v > hi {
        hi
    } else {
        v
    }
}

/// The x coordinate of the landing point on the neighbor: for a vertical
/// move the cursor's own x, clamped into the neighbor's horizontal span; for
/// a horizontal move the neighbor's facing vertical edge.
pub open spec fn spec_dest_x(dir: Dir, neighbor: Window, m: Mouse) -> int {
    match dir {
        Dir::Up | Dir::Down => spec_clamp(m.x as int, neighbor.x as int, neighbor.spec_border_x()),
        Dir::Left => neighbor.spec_border_x(),
        Dir::Right => neighbor.x as int,
    }
}

/// The y coordinate of the landing point on the neighbor: for a horizontal
/// move the cursor's own y, clamped into the neighbor's vertical span; for a
/// vertical move the neighbor's facing horizontal edge.
pub open spec fn spec_dest_y(dir: Dir, neighbor: Window, m: Mouse) -> int {
    match dir {
        Dir::Up => neighbor.spec_border_y(),
        Dir::Down => neighbor.y as int,
        Dir::Left | Dir::Right => spec_clamp(
            m.y as int,
            neighbor.y as int,
            neighbor.spec_border_y(),
        ),
    }
}

/// Output `k` is the closest neighbor for a move in direction `dir` away
/// from output `current`, and `d` is the landing point on it.
pub open spec fn spec_warp_choice(
    ws: Windows,
    dir: Dir,
    m: Mouse,
    current: int,
    d: Mouse,
    k: int,
) -> bool {
    &&& ws.spec_is_closest(dir, m, current, k)
    &&& d.x == spec_dest_x(dir, ws@[k], m)
    &&& d.y == spec_dest_y(dir, ws@[k], m)
}

/// `d` is the landing point of a warp out of output `current` in direction
/// `dir`, on some closest neighbor.
pub open spec fn spec_warps_from(ws: Windows, dir: Dir, m: Mouse, current: int, d: Mouse) -> bool {
    exists|k: int| spec_warp_choice(ws, dir, m, current, d, k)
}

impl Windows {
    /// The landing point of a warp out of output `current` in direction
    /// `dir`: the cursor's coordinate along the crossed edge is kept,
    /// clamped into the neighbor's span, and the other coordinate is the
    /// neighbor's facing edge. `None` when no output qualifies as a neighbor
    /// — the cursor stays put at the outer edge of the virtual desktop.
    pub fn warp_to_adjacent_output(&self, current: usize, mouse: &Mouse, dir: Dir) -> (r: Option<
        Mouse,
    >)
        requires
            self.wf(),
        ensures
            r matches Some(d) ==> spec_warps_from(*self, dir, *mouse, current as int, d),
            r is None ==> self.spec_no_candidate(dir, *mouse, current as int),
    {
        match self.find_closest_output(dir, mouse, current) {
            None => None,
            Some(i) => {
                let window = self.get(i);
                let mut x: i32 = mouse.x;
                let mut y: i32 = mouse.y;
                match dir {
                    Dir::Up => {
                        y = window.border_y();
                        if mouse.x < window.x {
                            x = window.x;
                        } else if mouse.x > window.border_x() {
                            x = window.border_x();
                        }
                    },
                    Dir::Down => {
                        y = window.y;
                        if mouse.x < window.x {
                            x = window.x;
                        } else if mouse.x > window.border_x() {
                            x = window.border_x();
                        }
                    },
                    Dir::Left => {
                        x = window.border_x();
                        if mouse.y < window.y {
                            y = window.y;
                        } else if mouse.y > window.border_y() {
                            y = window.border_y();
                        }
                    },
                    Dir::Right => {
                        x = window.x;
                        if mouse.y < window.y {
                            y = window.y;
                        } else if mouse.y > window.border_y() {
                            y = window.border_y();
                        }
                    },
                }
                let d = Mouse::new(x, y);
                proof {
                    assert(spec_warp_choice(*self, dir, *mouse, current as int, d, i as int));
                    assert(spec_warps_from(*self, dir, *mouse, current as int, d));
                }
                Some(d)
            },
        }
    }
}

/// The planner never produces an out-of-bounds landing point: the warp
/// destination always satisfies containment in the chosen neighbor.
pub proof fn lemma_warp_destination_contained(dir: Dir, neighbor: Window, m: Mouse)
    requires
        neighbor.wf(),
    ensures
        neighbor.spec_contains(spec_dest_x(dir, neighbor, m), spec_dest_y(dir, neighbor, m)),
{
}

/// Outputs `i` and `k` witness a warp of the cursor at `m` to `d`: `i` is
/// the first output containing `m`, the cursor touches exactly one of its
/// borders, and `k` is the closest neighbor in that direction, with `d` the
/// landing point on it.
pub open spec fn spec_warp_pair(ws: Windows, m: Mouse, d: Mouse, i: int, k: int) -> bool {
    &&& ws.spec_is_first_containing(m.x as int, m.y as int, i)
    &&& match ws@[i].spec_border_dirs(m.x as int, m.y as int).spec_single() {
        Some(dir) => spec_warp_choice(ws, dir, m, i, d, k),
        None => false,
    }
}

/// A tick at cursor `m` warps the cursor to `d`.
pub open spec fn spec_plans_warp(ws: Windows, m: Mouse, d: Mouse) -> bool {
    exists|i: int, k: int| #[trigger] spec_warp_pair(ws, m, d, i, k)
}

/// The first output containing `m` is `i`, and no warp leaves it: either
/// the cursor does not touch exactly one of its borders, or no other output
/// qualifies as a neighbor in that direction.
pub open spec fn spec_blocked_at(ws: Windows, m: Mouse, i: int) -> bool {
    &&& ws.spec_is_first_containing(m.x as int, m.y as int, i)
    &&& match ws@[i].spec_border_dirs(m.x as int, m.y as int).spec_single() {
        Some(dir) => ws.spec_no_candidate(dir, m, i),
        None => true,
    }
}

/// A tick at cursor `m` moves nothing: the cursor is outside every output,
/// or its output gives no single border direction, or no neighbor qualifies.
pub open spec fn spec_plans_no_warp(ws: Windows, m: Mouse) -> bool {
    ||| ws.spec_no_containing(m.x as int, m.y as int)
    ||| exists|i: int| #[trigger] spec_blocked_at(ws, m, i)
}

/// One tick of the poll loop driver, as a decision: given the last seen
/// cursor position and the current one, the destination the cursor is to be
/// moved to, or `None` when it is to stay put. An unchanged cursor plans
/// nothing; a moved cursor is looked up in the registry, its border contact
/// resolved to a single direction, and the warp planned on the closest
/// neighbor in that direction, the output it is inside excluded.
pub fn plan_tick(ws: &Windows, last: &Mouse, current: &Mouse) -> (r: Option<Mouse>)
    requires
        ws.wf(),
    ensures
        *last == *current ==> r is None,
        *last != *current && r is None ==> spec_plans_no_warp(*ws, *current),
        r matches Some(d) ==> *last != *current && spec_plans_warp(*ws, *current, d),
{
    if last.x == current.x && last.y == current.y {
        return None;
    }
    match ws.contains(current.x, current.y) {
        None => None,
        Some(i) => {
            let window = ws.get(i);
            let dirs = window.mouse_on_border(current);
            match dirs.single_direction() {
                None => {
                    proof {
                        assert(spec_blocked_at(*ws, *current, i as int));
                    }
                    None
                },
                Some(dir) => {
                    let r = ws.warp_to_adjacent_output(i, current, dir);
                    proof {
                        match r {
                            Some(d) => {
                                let k = choose|k: int|
                                    spec_warp_choice(*ws, dir, *current, i as int, d, k);
                                assert(spec_warp_pair(*ws, *current, d, i as int, k));
                            },
                            None => {
                                assert(spec_blocked_at(*ws, *current, i as int));
                            },
                        }
                    }
                    r
                },
            }
        },
    }
}

} // verus!
