use grape_planit::window::{main_window_position, parse_placement, window_position_on_monitor, Placement};

fn s(x: &str) -> String {
    x.to_string()
}

#[test]
fn main_window_corners() {
    assert_eq!(main_window_position(&s("top-left"), true, 1920, 1080, 300, 200), Some((0, 0)));
    assert_eq!(main_window_position(&s("top-right"), true, 1920, 1080, 300, 200), Some((1620, 0)));
    assert_eq!(main_window_position(&s("bottom-left"), true, 1920, 1080, 300, 200), Some((0, 840)));
    assert_eq!(main_window_position(&s("bottom-right"), true, 1920, 1080, 300, 200), Some((1620, 840)));
    assert_eq!(main_window_position(&s("center"), true, 1920, 1080, 300, 200), Some((810, 440)));
}

#[test]
fn main_window_center_rounds_toward_zero() {
    assert_eq!(main_window_position(&s("center"), true, 101, 100, 200, 203), Some((-49, -51)));
}

#[test]
fn main_window_refusals() {
    assert_eq!(main_window_position(&s("middle"), true, 1920, 1080, 300, 200), None);
    assert_eq!(main_window_position(&s("center"), false, 1920, 1080, 300, 200), None);
    assert_eq!(main_window_position(&s("top-right"), false, 1920, 1080, 300, 200), Some((1620, 0)));
}

#[test]
fn window_on_a_second_monitor() {
    assert_eq!(
        window_position_on_monitor(&s("bottom-right"), 1920, 0, 1280, 1024, 300, 200),
        Some((2900, 784))
    );
    assert_eq!(
        window_position_on_monitor(&s("center"), -1280, 100, 1280, 1024, 300, 200),
        Some((-790, 512))
    );
    assert_eq!(window_position_on_monitor(&s("nowhere"), 0, 0, 1, 1, 1, 1), None);
}

#[test]
fn placement_names() {
    assert_eq!(parse_placement(&s("bottom-right")), Some(Placement::BottomRight));
    assert_eq!(parse_placement(&s("Bottom-Right")), None);
}
