use mandelbrust::config::RenderConfig;
use mandelbrust::geometry::{Cursor, Plottable, Point};
use mandelbrust::orbit::{invert_pointer, is_traceable, trace};
use mandelbrust::plane::{MandelPlane, ESCAPE_POINT, H, W};

#[test]
fn window_size_follows_the_plane() {
    assert_eq!(W, 1050);
    assert_eq!(H, 700);
    assert_eq!(ESCAPE_POINT, 128);
}

#[test]
fn pointer_is_counted_from_the_bottom() {
    let config = RenderConfig::new(300, 200, 128).unwrap();
    let p = invert_pointer(&config, &Cursor::new((10, 50)));
    assert_eq!(p.coordinates(), (10, 150));
    let q = invert_pointer(&config, &Cursor::new((10, 250)));
    assert_eq!(q.coordinates(), (10, 0));
}

#[test]
fn origin_is_not_traceable() {
    let config = RenderConfig::new(300, 200, 128).unwrap();
    // (200, 100) maps to 3 * 200 / 300 - 2 = 0 and 2 * 100 / 200 - 1 = 0
    assert!(!is_traceable(&config, &Point::new((200, 100))));
    // (203, 100) maps to (0.03, 0): inside the guard radius 1/16
    assert!(!is_traceable(&config, &Point::new((203, 100))));
    // (207, 100) maps to (0.07, 0): outside it
    assert!(is_traceable(&config, &Point::new((207, 100))));
}

#[test]
fn guard_radius_is_inclusive() {
    // width 48: column 33 maps to 3 * 33 / 48 - 2 = 1/16 exactly
    let config = RenderConfig::new(48, 2, 128).unwrap();
    assert!(is_traceable(&config, &Point::new((33, 1))));
    assert!(!is_traceable(&config, &Point::new((32, 1))));
}

#[test]
fn escape_radius_is_exclusive() {
    let config = RenderConfig::new(300, 200, 128).unwrap();
    // column 0 maps to -2: distance exactly 2
    assert!(!is_traceable(&config, &Point::new((0, 100))));
    // column 1 maps to -1.99
    assert!(is_traceable(&config, &Point::new((1, 100))));
    // (0, 0) maps to (-2, -1)
    assert!(!is_traceable(&config, &Point::new((0, 0))));
    // (150, 100) maps to (-0.5, 0)
    assert!(is_traceable(&config, &Point::new((150, 100))));
}

#[test]
fn trace_is_empty_near_origin_and_far_out() {
    let config = RenderConfig::new(300, 200, 128).unwrap();
    let orbit = vec![Point::new((1, 2)), Point::new((3, 4))];
    assert!(trace(&config, &Cursor::new((200, 100)), 128, &orbit).is_empty());
    assert!(trace(&config, &Cursor::new((0, 100)), 128, &orbit).is_empty());
    assert!(trace(&config, &Cursor::new((0, 0)), 128, &orbit).is_empty());
}

#[test]
fn trace_starts_at_pointer_and_flips_orbit() {
    let config = RenderConfig::new(300, 200, 128).unwrap();
    let orbit = vec![Point::new((150, 100)), Point::new((120, 30)), Point::new((90, 260))];
    let out = trace(&config, &Cursor::new((150, 100)), 128, &orbit);
    let coords: Vec<(usize, usize)> = out.iter().map(|p| p.coordinates()).collect();
    assert_eq!(coords, vec![(150, 100), (150, 100), (120, 170), (90, 0)]);
}

#[test]
fn trace_is_capped_at_max_len() {
    let config = RenderConfig::new(300, 200, 128).unwrap();
    let orbit: Vec<Point> = (0..10).map(|i| Point::new((i, i))).collect();
    let out = trace(&config, &Cursor::new((150, 100)), 3, &orbit);
    let coords: Vec<(usize, usize)> = out.iter().map(|p| p.coordinates()).collect();
    assert_eq!(coords, vec![(150, 100), (0, 200), (1, 199), (2, 198)]);
    let none = trace(&config, &Cursor::new((150, 100)), 0, &orbit);
    assert_eq!(none.len(), 1);
}

#[test]
fn plane_starts_at_origin_and_ignores_outside_pointer() {
    let mut plane = MandelPlane::<300, 200>::new().unwrap();
    assert_eq!(plane.cursor().coordinates(), (0, 0));
    assert!(plane.update(150, 100));
    assert_eq!(plane.cursor().coordinates(), (150, 100));
    assert!(!plane.update(300, 10));
    assert!(!plane.update(10, 200));
    assert_eq!(plane.cursor().coordinates(), (150, 100));
    assert_eq!(plane.config().width(), 300);
    assert_eq!(plane.config().escape_budget(), ESCAPE_POINT);
}

#[test]
fn plane_rejects_empty_window() {
    assert!(MandelPlane::<0, 200>::new().is_err());
}

#[test]
fn plane_renders_and_traces() {
    let mut plane = MandelPlane::<4, 2>::new().unwrap();
    let counts = vec![0usize, 1, 2, 3, 4, 5, 6, 7];
    let buf = plane.render(&counts);
    assert_eq!(buf.len(), 32);
    assert_eq!(&buf[28..32], &MandelPlane::<4, 2>::map_color(7));
    // pointer (0, 0) is taken as (0, 2) from the bottom: the plane point (-2, 1)
    assert!(plane.trace(&vec![Point::new((1, 1))]).is_empty());
    // pointer (2, 1) maps to (-0.5, 0)
    assert!(plane.update(2, 1));
    let out = plane.trace(&vec![Point::new((1, 1))]);
    let coords: Vec<(usize, usize)> = out.iter().map(|p| p.coordinates()).collect();
    assert_eq!(coords, vec![(2, 1), (1, 1)]);
}
