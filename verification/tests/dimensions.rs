use rgba_grid::config::{Config, Scale};
use rgba_grid::dims::resolve_dimensions;
use rgba_grid::config::effective_colors;

fn cfg(width: Option<u32>, height: Option<u32>, scale: Option<Scale>, colors: Option<i32>) -> Config {
    Config { width, height, scale, colors }
}

#[test]
fn width_only_keeps_aspect() {
    let c = cfg(Some(40), None, None, None);
    assert_eq!(resolve_dimensions(&c, 100, 50), (40, 20));
}

#[test]
fn height_only_keeps_aspect() {
    let c = cfg(None, Some(25), None, None);
    assert_eq!(resolve_dimensions(&c, 100, 50), (50, 25));
}

#[test]
fn scale_only_scales_both() {
    let c = cfg(None, None, Some(Scale { num: 1, den: 2 }), None);
    assert_eq!(resolve_dimensions(&c, 100, 50), (50, 25));
}

#[test]
fn empty_config_defaults_to_width_32() {
    let c = cfg(None, None, None, None);
    assert_eq!(resolve_dimensions(&c, 100, 50), (32, 16));
}

#[test]
fn both_given_ignore_aspect() {
    let c = cfg(Some(40), Some(40), None, None);
    assert_eq!(resolve_dimensions(&c, 100, 50), (40, 40));
}

#[test]
fn degenerate_rounding_clamps_to_one() {
    // a tall, thin source: width 1 would round height 1 * 1 / 1000 to 0
    let c = cfg(Some(1), None, None, None);
    assert_eq!(resolve_dimensions(&c, 1000, 1), (1, 1));
}

#[test]
fn colors_default_is_64() {
    assert_eq!(effective_colors(&cfg(None, None, None, None)), 64);
}

#[test]
fn colors_clamped_low() {
    assert_eq!(effective_colors(&cfg(None, None, None, Some(1))), 2);
    assert_eq!(effective_colors(&cfg(None, None, None, Some(0))), 2);
    assert_eq!(effective_colors(&cfg(None, None, None, Some(-7))), 2);
    assert_eq!(effective_colors(&cfg(None, None, None, Some(2))), 2);
}

#[test]
fn colors_clamped_high() {
    assert_eq!(effective_colors(&cfg(None, None, None, Some(257))), 256);
    assert_eq!(effective_colors(&cfg(None, None, None, Some(10000))), 256);
    assert_eq!(effective_colors(&cfg(None, None, None, Some(256))), 256);
    assert_eq!(effective_colors(&cfg(None, None, None, Some(100))), 100);
}
