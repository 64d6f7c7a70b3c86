use asciicam::glyph::glyph_char;
use asciicam::grid::Grid;
use asciicam::render::ascii_art;
use asciicam::render::render_frame;
use asciicam::render::RawFrame;

const PALETTE: &str = " .:-=+*#%@";

fn palette_pos(c: char) -> usize {
    PALETTE.find(c).expect("character not in palette")
}

fn gray_frame(width: u32, height: u32, values: &[u8]) -> RawFrame {
    let mut data = Vec::new();
    for &v in values {
        data.push(v);
        data.push(v);
        data.push(v);
    }
    assert_eq!(values.len(), (width * height) as usize);
    RawFrame::new(width, height, data).expect("valid frame")
}

#[test]
fn grid_new_checks_length() {
    assert!(Grid::new(2, 2, vec![0, 1, 2, 3]).is_some());
    assert!(Grid::new(2, 2, vec![0, 1, 2]).is_none());
    assert!(Grid::new(0, 0, vec![]).is_some());
}

#[test]
fn normalize_full_range_is_identity() {
    let g = Grid::new(2, 2, vec![0, 85, 170, 255]).unwrap();
    let n = g.normalized();
    assert_eq!(n.data, vec![0, 85, 170, 255]);
}

#[test]
fn normalize_rescales_to_full_range() {
    let g = Grid::new(4, 1, vec![100, 150, 200, 200]).unwrap();
    let n = g.normalized();
    assert_eq!(n.data, vec![0, 128, 255, 255]);
    assert_eq!(*n.data.iter().min().unwrap(), 0);
    assert_eq!(*n.data.iter().max().unwrap(), 255);
}

#[test]
fn normalize_two_values() {
    let g = Grid::new(2, 1, vec![100, 200]).unwrap();
    let n = g.normalized();
    assert_eq!(n.data, vec![0, 255]);
}

#[test]
fn normalize_uniform_is_well_defined() {
    let g = Grid::new(2, 2, vec![7, 7, 7, 7]).unwrap();
    let n = g.normalized();
    assert_eq!(n.data, vec![7, 7, 7, 7]);
}

#[test]
fn glyph_extremes() {
    assert_eq!(glyph_char(0), ' ');
    assert_eq!(glyph_char(255), '@');
}

#[test]
fn glyph_known_values() {
    assert_eq!(glyph_char(85), '-');
    assert_eq!(glyph_char(170), '*');
    assert_eq!(glyph_char(128), '+');
}

#[test]
fn glyph_monotone_over_all_values() {
    let mut prev = palette_pos(glyph_char(0));
    for v in 1..=255u8 {
        let cur = palette_pos(glyph_char(v));
        assert!(prev <= cur, "palette slot dropped at brightness {}", v);
        prev = cur;
    }
    assert_eq!(palette_pos(glyph_char(0)), 0);
    assert_eq!(palette_pos(glyph_char(255)), 9);
}

#[test]
fn ascii_art_joins_rows() {
    let g = Grid::new(2, 2, vec![0, 85, 170, 255]).unwrap();
    let t = ascii_art(&g);
    assert_eq!(t, " -\n*@\n");
}

#[test]
fn render_quadrant_frame_hits_expected_palette_slots() {
    let f = gray_frame(2, 2, &[0, 85, 170, 255]);
    let t = render_frame(&f, 2, 2);
    assert_eq!(t, " -\n*@\n");
    let slots: Vec<usize> = t
        .chars()
        .filter(|c| *c != '\n')
        .map(palette_pos)
        .collect();
    assert_eq!(slots, vec![0, 3, 6, 9]);
}

#[test]
fn render_grayscales_color_input() {
    // A pure red pixel must come out as its luminance, not as its red channel:
    // the single-pixel grid is uniform, so normalization keeps the value.
    let f = RawFrame::new(1, 1, vec![255, 0, 0]).unwrap();
    let t = render_frame(&f, 1, 1);
    assert_eq!(t, ":\n");
}

#[test]
fn render_resizes_to_requested_dimensions() {
    let f = RawFrame::new(1, 1, vec![255, 0, 0]).unwrap();
    let t = render_frame(&f, 2, 2);
    assert_eq!(t, "::\n::\n");
}

#[test]
fn render_shape_is_requested_width_and_height() {
    let f = gray_frame(3, 2, &[0, 10, 20, 30, 40, 255]);
    let t = render_frame(&f, 5, 4);
    let lines: Vec<&str> = t.split('\n').collect();
    // A trailing line break leaves one final empty fragment.
    assert_eq!(lines.len(), 5);
    assert_eq!(lines[4], "");
    for line in &lines[..4] {
        assert_eq!(line.chars().count(), 5);
    }
}
