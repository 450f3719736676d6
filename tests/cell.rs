use noisefield::cell::{corners, glyph_for, samples_to_idx, Glyph, Point, RenderMode};

fn g(a: char, b: char, c: char, d: char) -> Glyph {
    Glyph { top_left: a, top_right: b, bottom_left: c, bottom_right: d }
}

#[test]
fn corners_go_clockwise_from_top_left() {
    let c = corners(10, 20, 4);
    assert_eq!(
        c,
        [
            Point { x: 8, y: 18 },
            Point { x: 12, y: 18 },
            Point { x: 12, y: 22 },
            Point { x: 8, y: 22 },
        ]
    );
}

#[test]
fn corners_of_odd_width_round_half_down() {
    let c = corners(0, 0, 5);
    assert_eq!(c[0], Point { x: -2, y: -2 });
    assert_eq!(c[2], Point { x: 2, y: 2 });
}

#[test]
fn all_above_is_solid_case() {
    assert_eq!(samples_to_idx(&[5, 6, 7, 8], 4), 15);
}

#[test]
fn all_at_or_below_is_empty_case() {
    assert_eq!(samples_to_idx(&[4, 4, 4, 4], 4), 0);
    assert_eq!(samples_to_idx(&[-1, 0, 3, 4], 4), 0);
}

#[test]
fn each_corner_sets_its_own_bit() {
    assert_eq!(samples_to_idx(&[1, 0, 0, 0], 0), 8);
    assert_eq!(samples_to_idx(&[0, 1, 0, 0], 0), 4);
    assert_eq!(samples_to_idx(&[0, 0, 1, 0], 0), 2);
    assert_eq!(samples_to_idx(&[0, 0, 0, 1], 0), 1);
    assert_eq!(samples_to_idx(&[2, 0, 3, 0], 1), 10);
}

#[test]
fn classify_is_deterministic_and_order_sensitive() {
    let s = [900_000, 100_000, 700_000, 300_000];
    let t = 400_000;
    assert_eq!(samples_to_idx(&s, t), samples_to_idx(&s, t));
    assert_eq!(samples_to_idx(&s, t), 10);
    let swapped = [100_000, 900_000, 700_000, 300_000];
    assert_eq!(samples_to_idx(&swapped, t), 6);
}

#[test]
fn every_case_has_a_glyph_in_both_tables() {
    for i in 0..16usize {
        let a = glyph_for(i, RenderMode::Ascii);
        let u = glyph_for(i, RenderMode::Unicode);
        assert_eq!(a == g(' ', ' ', ' ', ' '), i == 0);
        assert_eq!(u == g(' ', ' ', ' ', ' '), i == 0);
        assert_eq!(a == g('#', '#', '#', '#'), i == 15);
        assert_eq!(u == g('#', '#', '#', '#'), i == 15);
    }
}

#[test]
fn ascii_table_entries() {
    assert_eq!(glyph_for(3, RenderMode::Ascii), g(' ', ' ', '-', '-'));
    assert_eq!(glyph_for(7, RenderMode::Ascii), g(' ', '/', '/', '#'));
    assert_eq!(glyph_for(9, RenderMode::Ascii), g('|', ' ', '|', ' '));
    assert_eq!(glyph_for(11, RenderMode::Ascii), g('\\', ' ', '#', '\\'));
    assert_eq!(glyph_for(14, RenderMode::Ascii), g('\\', '#', ' ', '\\'));
}

#[test]
fn unicode_table_entries() {
    assert_eq!(glyph_for(1, RenderMode::Unicode), g(' ', ' ', '╮', ' '));
    assert_eq!(glyph_for(6, RenderMode::Unicode), g(' ', '│', ' ', '│'));
    assert_eq!(glyph_for(7, RenderMode::Unicode), g('╭', '╯', '╯', '#'));
    assert_eq!(glyph_for(12, RenderMode::Unicode), g('─', '─', ' ', ' '));
}

#[test]
fn glyph_new_keeps_characters() {
    assert_eq!(Glyph::new('a', 'b', 'c', 'd'), g('a', 'b', 'c', 'd'));
}
