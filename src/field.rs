//! A noise field: an ordered stack of contributors, each with a blend mode.
use vstd::prelude::*;

use crate::ONE;

verus! {

/// How one layer of a noise field combines with the running total.
#[derive(Clone, Copy, Debug, PartialEq, Eq, Structural)]
pub enum Mode {
    Add,
    Sub,
    Mul,
}

/// The fixed-point product of `a` and `b`, rounded toward zero.
pub open spec fn mul_fixed(a: int, b: int) -> int {
    let p = a * b;
    if p >= 0 {
        p / (ONE as int)
    } else {
        -((-p) / (ONE as int))
    }
}

/// The running total `acc` after a layer in mode `mode` gave the value `n`.
pub open spec fn blend(mode: Mode, acc: int, n: int) -> int {
    match mode {
        Mode::Add => acc + n,
        Mode::Sub => acc - n,
        Mode::Mul => mul_fixed(acc, n),
    }
}

/// The total of a stack of layers, folded left to right from zero, where
/// `vals[i]` is what the layer `i` gave at the point sampled.
pub open spec fn fold_layers(modes: Seq<Mode>, vals: Seq<i64>) -> int
    decreases modes.len(),
{
    if modes.len() == 0 || vals.len() == 0 {
        0
    } else {
        blend(
            modes.last(),
            fold_layers(modes.drop_last(), vals.drop_last()),
            vals.last() as int,
        )
    }
}

/// Every running total of the fold, the first `i` layers for each `i`, fits in an `i64`.
pub open spec fn fold_fits(modes: Seq<Mode>, vals: Seq<i64>) -> bool {
    forall|i: int|
        0 <= i <= modes.len() ==> i64::MIN <= #[trigger] fold_layers(modes.take(i), vals.take(i))
            <= i64::MAX
}

/// The product of two fixed-point scalars, rounded toward zero, or `None`
/// where it does not fit in an `i64`.
pub fn checked_mul_fixed(a: i64, b: i64) -> (r: Option<i64>)
    ensures
        r == (if i64::MIN <= mul_fixed(a as int, b as int) <= i64::MAX {
            Some(mul_fixed(a as int, b as int) as i64)
        } else {
            None::<i64>
        }),
{
    proof {
        let (x, y) = (a as int, b as int);
        assert(-0x4000_0000_0000_0000_0000_0000_0000_0000 <= x * y <= 0x4000_0000_0000_0000_0000_0000_0000_0000)
            by (nonlinear_arith)
            requires
                -0x8000_0000_0000_0000 <= x < 0x8000_0000_0000_0000,
                -0x8000_0000_0000_0000 <= y < 0x8000_0000_0000_0000,
        ;
    }
    let p: i128 = (a as i128) * (b as i128);
    let q: i128 = if p >= 0 {
        p / (ONE as i128)
    } else {
        -((-p) / (ONE as i128))
    };
    if i64::MIN as i128 <= q && q <= i64::MAX as i128 {
        Some(q as i64)
    } else {
        None
    }
}

/// `blend` on machine integers, or `None` where the result does not fit.
pub fn checked_blend(mode: Mode, acc: i64, n: i64) -> (r: Option<i64>)
    ensures
        r == (if i64::MIN <= blend(mode, acc as int, n as int) <= i64::MAX {
            Some(blend(mode, acc as int, n as int) as i64)
        } else {
            None::<i64>
        }),
{
    match mode {
        Mode::Add => acc.checked_add(n),
        Mode::Sub => acc.checked_sub(n),
        Mode::Mul => checked_mul_fixed(acc, n),
    }
}

/// One step of the fold: the first `i + 1` layers are the first `i`, then layer `i`.
pub proof fn lemma_fold_step(modes: Seq<Mode>, vals: Seq<i64>, i: int)
    requires
        0 <= i < modes.len(),
        i < vals.len(),
    ensures
        fold_layers(modes.take(i + 1), vals.take(i + 1)) == blend(
            modes[i],
            fold_layers(modes.take(i), vals.take(i)),
            vals[i] as int,
        ),
{
    assert(modes.take(i + 1).drop_last() =~= modes.take(i));
    assert(vals.take(i + 1).drop_last() =~= vals.take(i));
}

/// A 2D noise field: a stack of contributors, each paired with the mode in
/// which its value joins the running total. Layer order matters.
#[verifier::reject_recursive_types(C)]
pub struct NoiseField<C> {
    modes: Vec<Mode>,
    contributors: Vec<C>,
}

impl<C> NoiseField<C> {
    /// The blend mode of each layer, bottom first.
    pub closed spec fn mode_seq(&self) -> Seq<Mode> {
        self.modes@
    }

    /// The contributor of each layer, bottom first.
    pub closed spec fn contributor_seq(&self) -> Seq<C> {
        self.contributors@
    }

    /// Each layer has one mode and one contributor.
    pub closed spec fn wf(&self) -> bool {
        self.modes@.len() == self.contributors@.len()
    }

    /// An empty field: it samples to zero everywhere.
    pub fn new() -> (r: NoiseField<C>)
        ensures
            r.wf(),
            r.mode_seq() == Seq::<Mode>::empty(),
            r.contributor_seq() == Seq::<C>::empty(),
    {
        NoiseField { modes: Vec::new(), contributors: Vec::new() }
    }

    /// Puts `func` on top of the stack, blended in mode `mode`.
    pub fn add_noise(&mut self, func: C, mode: Mode)
        requires
            old(self).wf(),
        ensures
            final(self).wf(),
            final(self).mode_seq() == old(self).mode_seq().push(mode),
            final(self).contributor_seq() == old(self).contributor_seq().push(func),
    {
        self.modes.push(mode);
        self.contributors.push(func);
    }

    /// The number of layers.
    pub fn len(&self) -> (r: usize)
        requires
            self.wf(),
        ensures
            r == self.mode_seq().len(),
            r == self.contributor_seq().len(),
    {
        self.modes.len()
    }

    /// The contributors, bottom first, for the caller to evaluate at a point.
    pub fn contributors(&self) -> (r: &[C])
        ensures
            r@ == self.contributor_seq(),
    {
        self.contributors.as_slice()
    }

    /// The field's value at a point, where `values[i]` is what contributor `i`
    /// gave there: the layers folded left to right from zero, or `None` where
    /// a running total leaves the range of `i64`.
    pub fn sample(&self, values: &[i64]) -> (r: Option<i64>)
        requires
            self.wf(),
            values@.len() == self.mode_seq().len(),
        ensures
            r == (if fold_fits(self.mode_seq(), values@) {
                Some(fold_layers(self.mode_seq(), values@) as i64)
            } else {
                None::<i64>
            }),
            r matches Some(v) ==> v as int == fold_layers(self.mode_seq(), values@),
    {
        let ghost modes = self.modes@;
        let ghost vals = values@;
        assert(modes.take(0) =~= Seq::<Mode>::empty());
        let mut acc: i64 = 0;
        let mut i: usize = 0;
        while i < self.modes.len()
            invariant
                modes == self.modes@,
                vals == values@,
                vals.len() == modes.len(),
                0 <= i <= modes.len(),
                acc as int == fold_layers(modes.take(i as int), vals.take(i as int)),
                forall|j: int|
                    0 <= j <= i ==> i64::MIN <= #[trigger] fold_layers(modes.take(j), vals.take(j))
                        <= i64::MAX,
            decreases modes.len() - i,
        {
            proof {
                lemma_fold_step(modes, vals, i as int);
            }
            match checked_blend(self.modes[i], acc, values[i]) {
                Some(next) => {
                    acc = next;
                },
                None => {
                    assert(!fold_fits(modes, vals));
                    return None;
                },
            }
            i = i + 1;
        }
        assert(modes.take(i as int) =~= modes);
        assert(vals.take(i as int) =~= vals);
        proof {
            lemma_fits_total(modes, vals);
        }
        Some(acc)
    }
}

/// A field with no layers samples to zero at every point: zero is where the fold starts.
pub proof fn lemma_empty_field_samples_zero<C>(field: NoiseField<C>, values: Seq<i64>)
    requires
        field.wf(),
        field.mode_seq().len() == 0,
        values.len() == 0,
    ensures
        fold_fits(field.mode_seq(), values),
        fold_layers(field.mode_seq(), values) == 0,
{
    assert forall|i: int| 0 <= i <= field.mode_seq().len() implies i64::MIN <= #[trigger] fold_layers(
        field.mode_seq().take(i),
        values.take(i),
    ) <= i64::MAX by {
        assert(field.mode_seq().take(i).len() == 0);
    }
}

/// A field of one `Add` layer samples to exactly what its contributor gives.
pub proof fn lemma_single_add_layer<C>(field: NoiseField<C>, values: Seq<i64>)
    requires
        field.wf(),
        field.mode_seq() == seq![Mode::Add],
        values.len() == 1,
    ensures
        fold_fits(field.mode_seq(), values),
        fold_layers(field.mode_seq(), values) == values[0] as int,
{
    let modes = field.mode_seq();
    lemma_empty_field_take(modes, values);
    lemma_fold_step(modes, values, 0);
    assert(modes.take(1) =~= modes);
    assert(values.take(1) =~= values);
    assert forall|i: int| 0 <= i <= modes.len() implies i64::MIN <= #[trigger] fold_layers(
        modes.take(i),
        values.take(i),
    ) <= i64::MAX by {
        if i == 1 {
        }
    }
}

/// A field of an `Add` layer under a `Mul` layer samples to the fixed-point
/// product of the two contributors' values, wherever that product fits.
pub proof fn lemma_add_then_mul<C>(field: NoiseField<C>, values: Seq<i64>)
    requires
        field.wf(),
        field.mode_seq() == seq![Mode::Add, Mode::Mul],
        values.len() == 2,
    ensures
        fold_layers(field.mode_seq(), values) == mul_fixed(values[0] as int, values[1] as int),
        fold_fits(field.mode_seq(), values) <==> i64::MIN <= mul_fixed(
            values[0] as int,
            values[1] as int,
        ) <= i64::MAX,
{
    let modes = field.mode_seq();
    lemma_empty_field_take(modes, values);
    lemma_fold_step(modes, values, 0);
    lemma_fold_step(modes, values, 1);
    assert(modes.take(2) =~= modes);
    assert(values.take(2) =~= values);
    if i64::MIN <= mul_fixed(values[0] as int, values[1] as int) <= i64::MAX {
        assert forall|i: int| 0 <= i <= modes.len() implies i64::MIN <= #[trigger] fold_layers(
            modes.take(i),
            values.take(i),
        ) <= i64::MAX by {
            if i == 1 {
            } else if i == 2 {
            }
        }
    } else {
        assert(fold_layers(modes.take(2), values.take(2)) == fold_layers(modes, values));
    }
}

/// A `Mul` layer at the bottom of the stack multiplies the zero the fold
/// starts from, so the running total after it is zero whatever it gave.
pub proof fn lemma_mul_first_is_zero(modes: Seq<Mode>, values: Seq<i64>)
    requires
        modes.len() >= 1,
        values.len() == modes.len(),
        modes[0] == Mode::Mul,
    ensures
        fold_layers(modes.take(1), values.take(1)) == 0,
{
    lemma_empty_field_take(modes, values);
    lemma_fold_step(modes, values, 0);
}

/// Where every running total fits, so does the final one.
pub proof fn lemma_fits_total(modes: Seq<Mode>, values: Seq<i64>)
    requires
        fold_fits(modes, values),
        values.len() == modes.len(),
    ensures
        i64::MIN <= fold_layers(modes, values) <= i64::MAX,
{
    let i = modes.len() as int;
    assert(modes.take(i) =~= modes);
    assert(values.take(i) =~= values);
    assert(i64::MIN <= fold_layers(modes.take(i), values.take(i)) <= i64::MAX);
}

/// The fold over no layers is zero.
proof fn lemma_empty_field_take(modes: Seq<Mode>, values: Seq<i64>)
    ensures
        fold_layers(modes.take(0), values.take(0)) == 0,
{
    assert(modes.take(0).len() == 0);
}

} // verus!
