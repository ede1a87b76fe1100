use sysdash::chart::{project, x_bounds, DISPLAY_SPAN};
use sysdash::window::SlidingWindow;

#[test]
fn empty_window_projects_to_unit_range() {
    let w: SlidingWindow<u64> = SlidingWindow::new(60);
    let c = project(&w, 50);
    assert!(c.points.is_empty());
    assert_eq!((c.x_min, c.x_max), (0, 1));
    assert_eq!((c.y_min, c.y_max), (0, 10000));
}

#[test]
fn bounds_before_and_after_span() {
    assert_eq!(x_bounds(0, 50), (0, 1));
    assert_eq!(x_bounds(1, 50), (0, 1));
    assert_eq!(x_bounds(30, 50), (0, 30));
    assert_eq!(x_bounds(50, 50), (0, 50));
    assert_eq!(x_bounds(51, 50), (1, 51));
    assert_eq!(x_bounds(60, 50), (10, 60));
    assert_eq!(DISPLAY_SPAN, 50);
}

#[test]
fn projection_after_seventy_samples() {
    let mut w = SlidingWindow::new(60);
    for v in 1..=70u64 {
        w.push(v);
    }
    let c = project(&w, 50);
    assert_eq!((c.x_min, c.x_max), (10, 60));
    assert_eq!(c.points.len(), 60);
    assert_eq!(c.points[0], (0, 11));
    assert_eq!(c.points[59], (59, 70));
}

#[test]
fn projecting_twice_gives_same_chart() {
    let mut w = SlidingWindow::new(60);
    for v in [5u64, 900, 10000, 0] {
        w.push(v);
    }
    let a = project(&w, 50);
    let b = project(&w, 50);
    assert_eq!(a, b);
    assert_eq!(a.points, vec![(0, 5), (1, 900), (2, 10000), (3, 0)]);
}
