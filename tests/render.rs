use noisefield::cell::{Glyph, RenderMode};
use noisefield::field::{Mode, NoiseField};
use noisefield::render::render_cell;
use noisefield::ONE;

fn blank() -> Glyph {
    Glyph { top_left: ' ', top_right: ' ', bottom_left: ' ', bottom_right: ' ' }
}

fn solid() -> Glyph {
    Glyph { top_left: '#', top_right: '#', bottom_left: '#', bottom_right: '#' }
}

#[test]
fn empty_field_renders_blank() {
    let f: NoiseField<u32> = NoiseField::new();
    for t in [0, 400_000, 3 * ONE] {
        for m in [RenderMode::Ascii, RenderMode::Unicode] {
            assert_eq!(render_cell(&f, &[], &[], &[], &[], t, m), Some(blank()));
        }
    }
}

#[test]
fn constant_one_renders_solid() {
    let mut f: NoiseField<u32> = NoiseField::new();
    f.add_noise(0, Mode::Add);
    for m in [RenderMode::Ascii, RenderMode::Unicode] {
        let r = render_cell(&f, &[ONE], &[ONE], &[ONE], &[ONE], 400_000, m);
        assert_eq!(r, Some(solid()));
    }
}

#[test]
fn mixed_corners_render_their_case() {
    let mut f: NoiseField<u32> = NoiseField::new();
    f.add_noise(0, Mode::Add);
    f.add_noise(1, Mode::Sub);
    let r = render_cell(&f, &[ONE, 0], &[ONE, 0], &[0, 0], &[0, 0], 400_000, RenderMode::Ascii);
    assert_eq!(
        r,
        Some(Glyph { top_left: '-', top_right: '-', bottom_left: ' ', bottom_right: ' ' })
    );
}

#[test]
fn overflowing_corner_renders_nothing() {
    let mut f: NoiseField<u32> = NoiseField::new();
    f.add_noise(0, Mode::Add);
    f.add_noise(1, Mode::Add);
    let r = render_cell(&f, &[0, 0], &[i64::MAX, 1], &[0, 0], &[0, 0], 0, RenderMode::Ascii);
    assert_eq!(r, None);
}
