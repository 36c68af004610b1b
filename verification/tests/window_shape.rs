use fxmini::ui::window_shape::{physical, Region, RegionOutcome, RoundedWindow, WindowRect};

fn rect(left: i32, top: i32, right: i32, bottom: i32) -> WindowRect {
    WindowRect { left, top, right, bottom }
}

#[test]
fn a_region_is_cut_once_per_size() {
    let mut window = RoundedWindow::new();
    let first = rect(100, 50, 760, 670);
    assert_eq!(
        window.apply(first, 16),
        Some(Region { right: 661, bottom: 621, diameter: 16 })
    );
    assert!(!window.settle(first, RegionOutcome::Taken));
    assert_eq!(window.apply(first, 16), None);
    // Moved, not resized.
    assert_eq!(window.apply(rect(0, 0, 660, 620), 16), None);
    // Resized.
    assert_eq!(
        window.apply(rect(0, 0, 661, 620), 16),
        Some(Region { right: 662, bottom: 621, diameter: 16 })
    );
}

#[test]
fn a_region_that_was_not_taken_is_tried_again() {
    let mut window = RoundedWindow::default();
    let at = rect(0, 0, 10, 20);
    assert!(window.settle(at, RegionOutcome::Refused));
    assert!(window.apply(at, 8).is_some());
    assert!(!window.settle(at, RegionOutcome::NotCreated));
    assert!(window.apply(at, 8).is_some());
}

#[test]
fn an_empty_window_gets_no_region() {
    let window = RoundedWindow::new();
    assert_eq!(window.apply(rect(0, 0, 0, 20), 8), None);
    assert_eq!(window.apply(rect(5, 5, 4, 20), 8), None);
    assert_eq!(window.apply(rect(0, 20, 10, 20), 8), None);
}

#[test]
fn a_diameter_is_never_zero() {
    assert_eq!(physical(0), 1);
    assert_eq!(physical(-3), 1);
    assert_eq!(physical(24), 24);
    assert_eq!(
        RoundedWindow::new().apply(rect(0, 0, 1, 1), 0),
        Some(Region { right: 2, bottom: 2, diameter: 1 })
    );
}

#[test]
fn the_window_is_resolved_once() {
    let mut window = RoundedWindow::new();
    assert_eq!(window.window(None), None);
    assert_eq!(window.window(Some(7)), Some(7));
    assert_eq!(window.window(Some(8)), Some(7));
    assert_eq!(window.window(None), Some(7));
}
