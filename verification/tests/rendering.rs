use rgba_grid::config::{Config, Scale};
use rgba_grid::render::{rgba_to_grid, render_rgba, RenderError};

fn cfg(width: Option<u32>, height: Option<u32>, scale: Option<Scale>, colors: Option<i32>) -> Config {
    Config { width, height, scale, colors }
}

fn png_bytes(w: u32, h: u32, pixel: impl Fn(u32, u32) -> [u8; 4]) -> Vec<u8> {
    let img = image::RgbaImage::from_fn(w, h, |x, y| image::Rgba(pixel(x, y)));
    let mut buf = std::io::Cursor::new(Vec::new());
    img.write_to(&mut buf, image::ImageFormat::Png).unwrap();
    buf.into_inner()
}

fn is_hex_color(s: &str) -> bool {
    s.len() == 7 && s.starts_with('#') && s[1..].chars().all(|c| c.is_ascii_hexdigit() && !c.is_ascii_uppercase())
}

#[test]
fn transparent_pixels_become_dots() {
    let bytes = png_bytes(4, 4, |_, _| [10, 20, 30, 0]);
    let out = rgba_to_grid(&bytes, &cfg(Some(4), Some(4), None, None)).unwrap();
    assert_eq!(out.art, "....\n....\n....\n....");
    assert_eq!(out.palette.len(), 1);
    assert_eq!(out.palette[0].0, '.');
    assert!(out.palette[0].1.is_none());
}

#[test]
fn alpha_threshold_at_128() {
    // top row transparent (alpha 100), bottom row opaque (alpha 200)
    let bytes = png_bytes(3, 2, |_, y| if y == 0 { [200, 0, 0, 100] } else { [200, 0, 0, 200] });
    let out = rgba_to_grid(&bytes, &cfg(Some(3), Some(2), None, None)).unwrap();
    let rows: Vec<&str> = out.art.split('\n').collect();
    assert_eq!(rows.len(), 2);
    assert_eq!(rows[0], "...");
    assert!(rows[1].chars().all(|c| c != '.'));
}

#[test]
fn first_color_gets_first_alphabet_character() {
    let bytes = png_bytes(4, 4, |_, _| [255, 0, 0, 255]);
    let out = rgba_to_grid(&bytes, &cfg(Some(4), Some(4), None, None)).unwrap();
    assert_eq!(out.art, "AAAA\nAAAA\nAAAA\nAAAA");
    assert_eq!(out.palette.len(), 2);
    assert_eq!(out.palette[0].0, '.');
    assert!(out.palette[0].1.is_none());
    assert_eq!(out.palette[1].0, 'A');
    assert!(is_hex_color(out.palette[1].1.as_ref().unwrap()));
}

#[test]
fn second_color_gets_second_alphabet_character() {
    // left half one color, right half a very different one
    let bytes = png_bytes(8, 2, |x, _| if x < 4 { [255, 0, 0, 255] } else { [0, 0, 255, 255] });
    let out = rgba_to_grid(&bytes, &cfg(Some(8), Some(2), None, None)).unwrap();
    let first = out.art.chars().next().unwrap();
    assert_eq!(first, 'A');
    let rows: Vec<&str> = out.art.split('\n').collect();
    assert_eq!(rows[0].chars().nth(7).unwrap(), 'B');
    assert_eq!(out.palette[1].0, 'A');
    assert_eq!(out.palette[2].0, 'B');
}

#[test]
fn grid_has_resolved_dimensions() {
    let bytes = png_bytes(10, 6, |x, y| [(x * 25) as u8, (y * 40) as u8, 77, 255]);
    let out = rgba_to_grid(&bytes, &cfg(Some(5), Some(3), None, None)).unwrap();
    let rows: Vec<&str> = out.art.split('\n').collect();
    assert_eq!(rows.len(), 3);
    for row in rows {
        assert_eq!(row.chars().count(), 5);
    }
}

#[test]
fn determinism_identical_calls() {
    let bytes = png_bytes(12, 12, |x, y| [(x * 20) as u8, (y * 20) as u8, ((x + y) * 10) as u8, 255]);
    let c1 = cfg(Some(6), None, None, Some(16));
    let c2 = cfg(Some(6), None, None, Some(16));
    let out1 = rgba_to_grid(&bytes, &c1).unwrap();
    let out2 = rgba_to_grid(&bytes, &c2).unwrap();
    assert_eq!(out1.art, out2.art);
    assert_eq!(out1.palette, out2.palette);
}

#[test]
fn palette_never_exceeds_87_entries() {
    // many distinct colors, large configured palette
    let bytes = png_bytes(20, 20, |x, y| {
        let i = y * 20 + x;
        [(i * 7 % 256) as u8, (i * 13 % 256) as u8, (i * 29 % 256) as u8, 255]
    });
    let out = rgba_to_grid(&bytes, &cfg(Some(20), Some(20), None, Some(256))).unwrap();
    assert!(out.palette.len() <= 87);
}

#[test]
fn overflow_colors_map_to_question_mark() {
    let bytes = png_bytes(20, 20, |x, y| {
        let i = y * 20 + x;
        [(i * 7 % 256) as u8, (i * 13 % 256) as u8, (i * 29 % 256) as u8, 255]
    });
    let out = rgba_to_grid(&bytes, &cfg(Some(20), Some(20), None, Some(256))).unwrap();
    let distinct: std::collections::BTreeSet<char> =
        out.art.chars().filter(|c| *c != '\n').collect();
    // more than 86 distinct palette indices were observed, so the overflow
    // character must appear in the grid and never as a palette key
    assert!(distinct.contains(&'?'));
    assert!(out.palette.iter().all(|e| e.0 != '?'));
    assert!(distinct.len() <= 88);
}

#[test]
fn palette_colors_are_lowercase_hex() {
    let bytes = png_bytes(6, 6, |x, y| [(x * 40) as u8, (y * 40) as u8, 128, 255]);
    let out = rgba_to_grid(&bytes, &cfg(Some(6), Some(6), None, Some(8))).unwrap();
    assert_eq!(out.palette[0].0, '.');
    assert!(out.palette[0].1.is_none());
    for e in &out.palette[1..] {
        assert!(is_hex_color(e.1.as_ref().unwrap()));
    }
}

#[test]
fn garbage_bytes_give_decode_error() {
    let bytes = vec![1u8, 2, 3, 4, 5, 6, 7, 8];
    let r = rgba_to_grid(&bytes, &cfg(None, None, None, None));
    assert_eq!(r.unwrap_err(), RenderError::Decode);
}

#[test]
fn zero_dimension_buffer_gives_error() {
    let r = render_rgba(0, 5, &Vec::new(), &cfg(None, None, None, None));
    assert_eq!(r.unwrap_err(), RenderError::ZeroDimension);
    let r = render_rgba(5, 0, &Vec::new(), &cfg(None, None, None, None));
    assert_eq!(r.unwrap_err(), RenderError::ZeroDimension);
}

#[test]
fn scale_configuration_resizes() {
    let bytes = png_bytes(8, 8, |_, _| [0, 128, 0, 255]);
    let out = rgba_to_grid(&bytes, &cfg(None, None, Some(Scale { num: 1, den: 2 }), None)).unwrap();
    let rows: Vec<&str> = out.art.split('\n').collect();
    assert_eq!(rows.len(), 4);
    assert!(rows.iter().all(|r| r.chars().count() == 4));
}

#[test]
fn resampling_samples_both_halves() {
    // top half black, bottom half white, shrunk to a single column of two
    // cells: each cell must come from its own half of the source
    let bytes = png_bytes(8, 8, |_, y| if y < 4 { [0, 0, 0, 255] } else { [255, 255, 255, 255] });
    let out = rgba_to_grid(&bytes, &cfg(Some(1), Some(2), None, None)).unwrap();
    let rows: Vec<&str> = out.art.split('\n').collect();
    assert_eq!(rows.len(), 2);
    assert_eq!(rows[0], "A");
    assert_eq!(rows[1], "B");
}

#[test]
fn unparseable_dimensions_fall_back_like_default() {
    // the resolved grid for a 100x50 source under the default configuration
    let bytes = png_bytes(100, 50, |x, y| [(x * 2) as u8, (y * 5) as u8, 9, 255]);
    let out = rgba_to_grid(&bytes, &cfg(None, None, None, None)).unwrap();
    let rows: Vec<&str> = out.art.split('\n').collect();
    assert_eq!(rows.len(), 16);
    assert!(rows.iter().all(|r| r.chars().count() == 32));
}
