//! One cell of a frame: the field sampled at the cell's four corners,
//! classified against the threshold and drawn with a glyph.
use vstd::prelude::*;

use crate::cell::{
    blank, case_index, glyph_for, glyph_spec, lemma_uniform_cases, samples_to_idx, solid, Glyph,
    RenderMode,
};
use crate::field::{
    fold_fits, fold_layers, lemma_empty_field_samples_zero, lemma_fits_total, lemma_single_add_layer, Mode,
    NoiseField,
};
use crate::ONE;

verus! {

/// The glyph of a cell whose corners' contributors gave `tl`, `tr`, `br`
/// and `bl`, or `None` where the field's value at a corner leaves `i64`.
pub open spec fn cell_glyph(
    modes: Seq<Mode>,
    tl: Seq<i64>,
    tr: Seq<i64>,
    br: Seq<i64>,
    bl: Seq<i64>,
    threshold: i64,
    mode: RenderMode,
) -> Option<Glyph> {
    if fold_fits(modes, tl) && fold_fits(modes, tr) && fold_fits(modes, br) && fold_fits(
        modes,
        bl,
    ) {
        Some(
            glyph_spec(
                case_index(
                    fold_layers(modes, tl),
                    fold_layers(modes, tr),
                    fold_layers(modes, br),
                    fold_layers(modes, bl),
                    threshold as int,
                ),
                mode,
            ),
        )
    } else {
        None
    }
}

/// Draws one cell. Each argument from `tl` to `bl` holds what the field's
/// contributors gave, bottom layer first, at the cell's top-left, top-right,
/// bottom-right and bottom-left corner.
pub fn render_cell<C>(
    field: &NoiseField<C>,
    tl: &[i64],
    tr: &[i64],
    br: &[i64],
    bl: &[i64],
    threshold: i64,
    mode: RenderMode,
) -> (r: Option<Glyph>)
    requires
        field.wf(),
        tl@.len() == field.mode_seq().len(),
        tr@.len() == field.mode_seq().len(),
        br@.len() == field.mode_seq().len(),
        bl@.len() == field.mode_seq().len(),
    ensures
        r == cell_glyph(field.mode_seq(), tl@, tr@, br@, bl@, threshold, mode),
{
    let a = match field.sample(tl) {
        Some(v) => v,
        None => return None,
    };
    let b = match field.sample(tr) {
        Some(v) => v,
        None => return None,
    };
    let c = match field.sample(br) {
        Some(v) => v,
        None => return None,
    };
    let d = match field.sample(bl) {
        Some(v) => v,
        None => return None,
    };
    proof {
        lemma_fits_total(field.mode_seq(), tl@);
        lemma_fits_total(field.mode_seq(), tr@);
        lemma_fits_total(field.mode_seq(), br@);
        lemma_fits_total(field.mode_seq(), bl@);
    }
    let samples: [i64; 4] = [a, b, c, d];
    assert(samples@ =~= seq![a, b, c, d]);
    let idx = samples_to_idx(&samples, threshold);
    Some(glyph_for(idx, mode))
}

/// A field with no layers draws every cell blank at any threshold of zero or
/// more, wherever the cell lies.
pub proof fn lemma_empty_field_draws_blank<C>(
    field: NoiseField<C>,
    threshold: i64,
    mode: RenderMode,
)
    requires
        field.wf(),
        field.mode_seq().len() == 0,
        threshold >= 0,
    ensures
        cell_glyph(field.mode_seq(), seq![], seq![], seq![], seq![], threshold, mode) == Some(
            blank(),
        ),
{
    lemma_empty_field_samples_zero(field, seq![]);
    lemma_uniform_cases(0, 0, 0, 0, threshold as int);
}

/// A field of one `Add` layer whose contributor gives 1.0 everywhere draws
/// every cell solid at any threshold below 1.0, wherever the cell lies.
pub proof fn lemma_constant_one_draws_solid<C>(
    field: NoiseField<C>,
    threshold: i64,
    mode: RenderMode,
)
    requires
        field.wf(),
        field.mode_seq() == seq![Mode::Add],
        threshold < ONE,
    ensures
        cell_glyph(
            field.mode_seq(),
            seq![ONE],
            seq![ONE],
            seq![ONE],
            seq![ONE],
            threshold,
            mode,
        ) == Some(solid()),
{
    lemma_single_add_layer(field, seq![ONE]);
    lemma_uniform_cases(ONE as int, ONE as int, ONE as int, ONE as int, threshold as int);
}

} // verus!
