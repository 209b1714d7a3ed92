use hyprwarp::geometry::dir_to_string;
use hyprwarp::geometry::Dir;
use hyprwarp::geometry::Dirs;
use hyprwarp::geometry::Mouse;
use hyprwarp::geometry::Window;

fn flags(up: bool, down: bool, left: bool, right: bool) -> Dirs {
    Dirs { up, down, left, right }
}

#[test]
fn mouse_new_and_update() {
    let mut m = Mouse::new(3, -4);
    assert_eq!(m.x, 3);
    assert_eq!(m.y, -4);
    m.update(10, 20);
    assert_eq!(m.x, 10);
    assert_eq!(m.y, 20);
}

#[test]
fn window_new_and_edges() {
    let w = Window::new("DP-1", 1920, 1080, 100, 200);
    assert_eq!(w.name, "DP-1");
    assert_eq!(w.width, 1920);
    assert_eq!(w.height, 1080);
    assert_eq!(w.x, 100);
    assert_eq!(w.y, 200);
    assert_eq!(w.border_x(), 2020);
    assert_eq!(w.border_y(), 1280);
}

#[test]
fn window_update_keeps_name() {
    let mut w = Window::new("DP-1", 100, 100, 0, 0);
    w.update(200, 300, 10, 20);
    assert_eq!(w.name, "DP-1");
    assert_eq!(w.width, 200);
    assert_eq!(w.height, 300);
    assert_eq!(w.x, 10);
    assert_eq!(w.y, 20);
}

#[test]
fn contains_is_inclusive_on_edges_and_corners() {
    let w = Window::new("A", 100, 100, 0, 0);
    // all four corners
    assert!(w.contains(0, 0));
    assert!(w.contains(100, 0));
    assert!(w.contains(0, 100));
    assert!(w.contains(100, 100));
    // edge midpoints
    assert!(w.contains(50, 0));
    assert!(w.contains(50, 100));
    assert!(w.contains(0, 50));
    assert!(w.contains(100, 50));
    // interior
    assert!(w.contains(50, 50));
    assert!(w.contains_mouse(&Mouse::new(50, 50)));
}

#[test]
fn contains_rejects_points_outside_the_span() {
    let w = Window::new("A", 100, 100, 0, 0);
    assert!(!w.contains(-1, 50));
    assert!(!w.contains(101, 50));
    assert!(!w.contains(50, -1));
    assert!(!w.contains(50, 101));
    assert!(!w.contains(-1, -1));
    assert!(!w.contains(101, 101));
    assert!(!w.contains_mouse(&Mouse::new(200, 50)));
}

#[test]
fn corner_touch_yields_exactly_two_flags() {
    let w = Window::new("A", 100, 100, 0, 0);
    assert_eq!(w.mouse_on_border(&Mouse::new(0, 0)), flags(true, false, true, false));
    assert_eq!(w.mouse_on_border(&Mouse::new(100, 0)), flags(true, false, false, true));
    assert_eq!(w.mouse_on_border(&Mouse::new(0, 100)), flags(false, true, true, false));
    assert_eq!(w.mouse_on_border(&Mouse::new(100, 100)), flags(false, true, false, true));
}

#[test]
fn edge_touch_yields_exactly_one_flag() {
    let w = Window::new("A", 100, 100, 0, 0);
    assert_eq!(w.mouse_on_border(&Mouse::new(50, 0)), flags(true, false, false, false));
    assert_eq!(w.mouse_on_border(&Mouse::new(50, 100)), flags(false, true, false, false));
    assert_eq!(w.mouse_on_border(&Mouse::new(0, 50)), flags(false, false, true, false));
    assert_eq!(w.mouse_on_border(&Mouse::new(100, 50)), flags(false, false, false, true));
}

#[test]
fn interior_point_yields_no_flags() {
    let w = Window::new("A", 100, 100, 0, 0);
    assert_eq!(w.mouse_on_border(&Mouse::new(50, 50)), flags(false, false, false, false));
    assert_eq!(w.mouse_on_border(&Mouse::new(1, 1)), flags(false, false, false, false));
}

#[test]
fn point_outside_the_edge_span_touches_no_border() {
    let w = Window::new("A", 100, 100, 0, 0);
    // level with the top edge but beyond its horizontal span
    assert_eq!(w.mouse_on_border(&Mouse::new(150, 0)), flags(false, false, false, false));
    // level with the left edge but beyond its vertical span
    assert_eq!(w.mouse_on_border(&Mouse::new(0, -10)), flags(false, false, false, false));
}

#[test]
fn single_direction_resolves_exactly_one_flag() {
    assert_eq!(flags(true, false, false, false).single_direction(), Some(Dir::Up));
    assert_eq!(flags(false, true, false, false).single_direction(), Some(Dir::Down));
    assert_eq!(flags(false, false, true, false).single_direction(), Some(Dir::Left));
    assert_eq!(flags(false, false, false, true).single_direction(), Some(Dir::Right));
    assert_eq!(flags(false, false, false, false).single_direction(), None);
    assert_eq!(flags(true, false, true, false).single_direction(), None);
    assert_eq!(flags(true, true, true, true).single_direction(), None);
}

#[test]
fn dir_to_string_names_set_flags_in_order() {
    assert_eq!(dir_to_string(&flags(false, false, false, false)), "");
    assert_eq!(dir_to_string(&flags(true, false, false, false)), "Up ");
    assert_eq!(dir_to_string(&flags(false, true, false, false)), "Down ");
    assert_eq!(dir_to_string(&flags(false, false, true, false)), "Left ");
    assert_eq!(dir_to_string(&flags(false, false, false, true)), "Right ");
    assert_eq!(dir_to_string(&flags(true, false, true, false)), "Up Left ");
    assert_eq!(dir_to_string(&flags(false, true, false, true)), "Down Right ");
    assert_eq!(dir_to_string(&flags(true, true, true, true)), "Up Down Left Right ");
}
