use statusbar::bar::{compute_bar_rect, clock_text_position, partial_strut, strut, BarConfig};
use statusbar::window::{Rectangle, XcbError};

#[test]
fn bar_rect_full_hd_monitor() {
    let monitor = Rectangle { x: 0, y: 0, width: 1920, height: 1080 };
    let cfg = BarConfig::default();
    let bar = compute_bar_rect(&monitor, &cfg);
    assert_eq!(bar, Rectangle { x: 0, y: 1032, width: 1920, height: 48 });
}

#[test]
fn bar_bottom_edge_meets_monitor_bottom_edge() {
    let monitor = Rectangle { x: -1920, y: 200, width: 1920, height: 1080 };
    let cfg = BarConfig::default();
    let bar = compute_bar_rect(&monitor, &cfg);
    assert_eq!(bar.x, -1920);
    assert_eq!(bar.width, 1920);
    assert_eq!(bar.height, 48);
    assert_eq!(bar.y as i64 + bar.height as i64, monitor.y as i64 + monitor.height as i64);
}

#[test]
fn default_config_values() {
    let cfg = BarConfig::default();
    assert_eq!(cfg.height, 48);
    assert_eq!(cfg.background_color, (192, 200, 219));
    assert_eq!(cfg.font_color, (920, 920, 920));
    assert_eq!(cfg.font_size, 18000);
    assert_eq!(cfg.background_color.0 as f64 / 1000.0, 0.192);
    assert_eq!(cfg.font_size as f64 / 1000.0, 18.0);
}

#[test]
fn partial_strut_reserves_only_the_bottom() {
    let monitor = Rectangle { x: 0, y: 0, width: 1920, height: 1080 };
    let cfg = BarConfig::default();
    let v = partial_strut(&monitor, &cfg);
    assert_eq!(v, vec![0, 0, 0, 48, 0, 1080, 0, 1080, 0, 1920, 0, 1920]);
}

#[test]
fn strut_reserves_only_the_bottom() {
    let cfg = BarConfig::default();
    assert_eq!(strut(&cfg), vec![0, 0, 0, 48]);
}

#[test]
fn clock_text_is_right_aligned_and_centered() {
    let monitor = Rectangle { x: 0, y: 0, width: 1920, height: 1080 };
    let cfg = BarConfig::default();
    // A 200.0 x 18.0 pixel text in a 48-pixel bar on a 1920-wide monitor.
    let (x, y) = clock_text_position(&monitor, &cfg, 200_000, 18_000);
    assert_eq!(x, 1_920_000 - (48_000 - 18_000) / 2 - 200_000);
    assert_eq!(x, 1_705_000);
    assert_eq!(y, 24_000 + 9_000);
}

#[test]
fn xcb_error_message() {
    let e = XcbError;
    assert_eq!(e.message(), "An error occurred with XCB");
}
