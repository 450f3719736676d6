//! Marching squares on one screen cell: its four corners, the case index of
//! their samples against a threshold, and the glyph that draws each case.
use vstd::prelude::*;

verus! {

/// A point of the plane in fixed-point world coordinates.
#[derive(Clone, Copy, Debug, PartialEq, Eq, Structural)]
pub struct Point {
    pub x: i64,
    pub y: i64,
}

/// The four corners of the square of width `width` centred on `(x, y)`, in
/// the order the classifier reads them: top-left, top-right, bottom-right,
/// bottom-left (the y axis points down the screen).
pub open spec fn corner_points(x: int, y: int, width: int) -> Seq<Point> {
    let h = width / 2;
    seq![
        Point { x: (x - h) as i64, y: (y - h) as i64 },
        Point { x: (x + h) as i64, y: (y - h) as i64 },
        Point { x: (x + h) as i64, y: (y + h) as i64 },
        Point { x: (x - h) as i64, y: (y + h) as i64 },
    ]
}

/// The corners of the cell centred on `(x, y)` with side `width`, each at
/// half the width (rounded down) from the centre on both axes.
pub fn corners(x: i64, y: i64, width: i64) -> (r: [Point; 4])
    requires
        width >= 0,
        i64::MIN <= x - width / 2,
        x + width / 2 <= i64::MAX,
        i64::MIN <= y - width / 2,
        y + width / 2 <= i64::MAX,
    ensures
        r@ == corner_points(x as int, y as int, width as int),
{
    let w = width / 2;
    let r = [
        Point { x: x - w, y: y - w },
        Point { x: x + w, y: y - w },
        Point { x: x + w, y: y + w },
        Point { x: x - w, y: y + w },
    ];
    assert(r@ =~= corner_points(x as int, y as int, width as int));
    r
}

/// One bit of the case index: 1 where the sample lies strictly above the threshold.
pub open spec fn above(sample: int, threshold: int) -> int {
    if sample > threshold {
        1
    } else {
        0
    }
}

/// The case index of four corner samples, read top-left, top-right,
/// bottom-right, bottom-left, as bits 3, 2, 1 and 0.
pub open spec fn case_index(a: int, b: int, c: int, d: int, threshold: int) -> int {
    8 * above(a, threshold) + 4 * above(b, threshold) + 2 * above(c, threshold) + above(
        d,
        threshold,
    )
}

/// The case index of a cell's corner samples against `threshold`.
pub fn samples_to_idx(samples: &[i64; 4], threshold: i64) -> (r: usize)
    ensures
        r == case_index(
            samples[0] as int,
            samples[1] as int,
            samples[2] as int,
            samples[3] as int,
            threshold as int,
        ),
        r < 16,
{
    let mut bits: [usize; 4] = [0, 0, 0, 0];
    let mut k: usize = 0;
    while k < 4
        invariant
            0 <= k <= 4,
            forall|j: int| 0 <= j < k ==> bits[j] == above(samples[j] as int, threshold as int),
        decreases 4 - k,
    {
        bits[k] = if samples[k] > threshold {
            1
        } else {
            0
        };
        k = k + 1;
    }
    8 * bits[0] + 4 * bits[1] + 2 * bits[2] + bits[3]
}

/// Which way a corner's sample falls decides one bit of the case index,
/// and that bit alone: two sets of samples have one case index exactly when
/// every corner falls on the same side of the threshold in both.
pub proof fn lemma_case_index_is_positional(s: Seq<int>, u: Seq<int>, threshold: int)
    requires
        s.len() == 4,
        u.len() == 4,
    ensures
        case_index(s[0], s[1], s[2], s[3], threshold) == case_index(u[0], u[1], u[2], u[3], threshold)
            <==> (forall|k: int| 0 <= k < 4 ==> (#[trigger] s[k] > threshold) == (u[k] > threshold)),
{
    if forall|k: int| 0 <= k < 4 ==> (#[trigger] s[k] > threshold) == (u[k] > threshold) {
    } else {
        let k = choose|k: int| 0 <= k < 4 && (#[trigger] s[k] > threshold) != (u[k] > threshold);
        assert(0 <= k < 4);
    }
}

/// All four corners above the threshold give the solid case 15; all four at
/// or below it give the empty case 0.
pub proof fn lemma_uniform_cases(a: int, b: int, c: int, d: int, threshold: int)
    ensures
        a > threshold && b > threshold && c > threshold && d > threshold ==> case_index(
            a,
            b,
            c,
            d,
            threshold,
        ) == 15,
        a <= threshold && b <= threshold && c <= threshold && d <= threshold ==> case_index(
            a,
            b,
            c,
            d,
            threshold,
        ) == 0,
{
}

/// What is drawn for one cell: two rows of two characters.
#[derive(Clone, Copy, Debug, PartialEq, Eq, Structural)]
pub struct Glyph {
    pub top_left: char,
    pub top_right: char,
    pub bottom_left: char,
    pub bottom_right: char,
}

/// The glyph with these four characters, top row first.
pub open spec fn glyph(a: char, b: char, c: char, d: char) -> Glyph {
    Glyph { top_left: a, top_right: b, bottom_left: c, bottom_right: d }
}

impl Glyph {
    /// The glyph with these four characters, top row first.
    pub fn new(a: char, b: char, c: char, d: char) -> (r: Glyph)
        ensures
            r == glyph(a, b, c, d),
    {
        Glyph { top_left: a, top_right: b, bottom_left: c, bottom_right: d }
    }
}

/// Which glyph table a cell is drawn from.
#[derive(Clone, Copy, Debug, PartialEq, Eq, Structural)]
pub enum RenderMode {
    Ascii,
    Unicode,
}

/// The plain-ASCII glyph of each case index.
pub open spec fn ascii_glyph(idx: int) -> Glyph {
    if idx == 0 {
        glyph(' ', ' ', ' ', ' ')
    } else if idx == 1 {
        glyph(' ', ' ', '.', ' ')
    } else if idx == 2 {
        glyph(' ', ' ', ' ', '.')
    } else if idx == 3 {
        glyph(' ', ' ', '-', '-')
    } else if idx == 4 {
        glyph(' ', '.', ' ', ' ')
    } else if idx == 5 {
        glyph(' ', '.', '.', ' ')
    } else if idx == 6 {
        glyph(' ', '|', ' ', '|')
    } else if idx == 7 {
        glyph(' ', '/', '/', '#')
    } else if idx == 8 {
        glyph('.', ' ', ' ', ' ')
    } else if idx == 9 {
        glyph('|', ' ', '|', ' ')
    } else if idx == 10 {
        glyph('.', ' ', ' ', '.')
    } else if idx == 11 {
        glyph('\\', ' ', '#', '\\')
    } else if idx == 12 {
        glyph('-', '-', ' ', ' ')
    } else if idx == 13 {
        glyph('#', '/', '/', ' ')
    } else if idx == 14 {
        glyph('\\', '#', ' ', '\\')
    } else {
        glyph('#', '#', '#', '#')
    }
}

/// The box-drawing glyph of each case index.
pub open spec fn unicode_glyph(idx: int) -> Glyph {
    if idx == 0 {
        glyph(' ', ' ', ' ', ' ')
    } else if idx == 1 {
        glyph(' ', ' ', '╮', ' ')
    } else if idx == 2 {
        glyph(' ', ' ', ' ', '╭')
    } else if idx == 3 {
        glyph(' ', ' ', '─', '─')
    } else if idx == 4 {
        glyph(' ', '╰', ' ', ' ')
    } else if idx == 5 {
        glyph(' ', '╰', '╮', ' ')
    } else if idx == 6 {
        glyph(' ', '│', ' ', '│')
    } else if idx == 7 {
        glyph('╭', '╯', '╯', '#')
    } else if idx == 8 {
        glyph('╯', ' ', ' ', ' ')
    } else if idx == 9 {
        glyph('│', ' ', '│', ' ')
    } else if idx == 10 {
        glyph('╯', ' ', ' ', '╭')
    } else if idx == 11 {
        glyph('╰', '╮', '#', '╰')
    } else if idx == 12 {
        glyph('─', '─', ' ', ' ')
    } else if idx == 13 {
        glyph('#', '╭', '╭', '╯')
    } else if idx == 14 {
        glyph('╮', '#', '╰', '╮')
    } else {
        glyph('#', '#', '#', '#')
    }
}

/// Looks up the plain-ASCII glyph of a case index.
pub fn ascii_glyph_of(idx: usize) -> (r: Glyph)
    requires
        idx < 16,
    ensures
        r == ascii_glyph(idx as int),
{
    match idx {
        0 => Glyph::new(' ', ' ', ' ', ' '),
        1 => Glyph::new(' ', ' ', '.', ' '),
        2 => Glyph::new(' ', ' ', ' ', '.'),
        3 => Glyph::new(' ', ' ', '-', '-'),
        4 => Glyph::new(' ', '.', ' ', ' '),
        5 => Glyph::new(' ', '.', '.', ' '),
        6 => Glyph::new(' ', '|', ' ', '|'),
        7 => Glyph::new(' ', '/', '/', '#'),
        8 => Glyph::new('.', ' ', ' ', ' '),
        9 => Glyph::new('|', ' ', '|', ' '),
        10 => Glyph::new('.', ' ', ' ', '.'),
        11 => Glyph::new('\\', ' ', '#', '\\'),
        12 => Glyph::new('-', '-', ' ', ' '),
        13 => Glyph::new('#', '/', '/', ' '),
        14 => Glyph::new('\\', '#', ' ', '\\'),
        _ => Glyph::new('#', '#', '#', '#'),
    }
}

/// Looks up the box-drawing glyph of a case index.
pub fn unicode_glyph_of(idx: usize) -> (r: Glyph)
    requires
        idx < 16,
    ensures
        r == unicode_glyph(idx as int),
{
    match idx {
        0 => Glyph::new(' ', ' ', ' ', ' '),
        1 => Glyph::new(' ', ' ', '╮', ' '),
        2 => Glyph::new(' ', ' ', ' ', '╭'),
        3 => Glyph::new(' ', ' ', '─', '─'),
        4 => Glyph::new(' ', '╰', ' ', ' '),
        5 => Glyph::new(' ', '╰', '╮', ' '),
        6 => Glyph::new(' ', '│', ' ', '│'),
        7 => Glyph::new('╭', '╯', '╯', '#'),
        8 => Glyph::new('╯', ' ', ' ', ' '),
        9 => Glyph::new('│', ' ', '│', ' '),
        10 => Glyph::new('╯', ' ', ' ', '╭'),
        11 => Glyph::new('╰', '╮', '#', '╰'),
        12 => Glyph::new('─', '─', ' ', ' '),
        13 => Glyph::new('#', '╭', '╭', '╯'),
        14 => Glyph::new('╮', '#', '╰', '╮'),
        _ => Glyph::new('#', '#', '#', '#'),
    }
}

/// The glyph of a case index in a render mode.
pub open spec fn glyph_spec(idx: int, mode: RenderMode) -> Glyph {
    match mode {
        RenderMode::Ascii => ascii_glyph(idx),
        RenderMode::Unicode => unicode_glyph(idx),
    }
}

/// Looks up the glyph of a case index in the table of `mode`.
pub fn glyph_for(idx: usize, mode: RenderMode) -> (r: Glyph)
    requires
        idx < 16,
    ensures
        r == glyph_spec(idx as int, mode),
{
    match mode {
        RenderMode::Ascii => ascii_glyph_of(idx),
        RenderMode::Unicode => unicode_glyph_of(idx),
    }
}

/// The glyph of an empty cell, all four characters blank.
pub open spec fn blank() -> Glyph {
    glyph(' ', ' ', ' ', ' ')
}

/// The glyph of a solid cell, all four characters filled.
pub open spec fn solid() -> Glyph {
    glyph('#', '#', '#', '#')
}

/// Both tables draw case 0 blank and case 15 solid, and only those cases so.
pub proof fn lemma_tables_blank_and_solid(idx: int, mode: RenderMode)
    requires
        0 <= idx < 16,
    ensures
        glyph_spec(idx, mode) == blank() <==> idx == 0,
        glyph_spec(idx, mode) == solid() <==> idx == 15,
{
}

} // verus!
