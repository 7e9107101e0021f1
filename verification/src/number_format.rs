//! Layout decisions behind big-number display and big-number sums. A big
//! number is a mantissa with a decimal exponent; the floating-point work
//! (scaling and printing the mantissa) is the caller's.

use vstd::prelude::*;

verus! {

/// How numbers are shown to the player.
#[derive(Clone, Copy, Debug, PartialEq, Eq, Structural)]
pub enum NumberFormatMode {
    Standard,
    Engineering,
    Exponential,
}

/// How a number `mantissa * 10^exponent` is printed (always with three
/// decimals).
#[derive(Clone, Copy, Debug, PartialEq, Eq, Structural)]
pub enum NumberLayout {
    /// The plain value `mantissa * 10^exponent`.
    Plain,
    /// `m e x`, where `m = mantissa * 10^mantissa_shift` and `x = shown_exponent`.
    Scientific { mantissa_shift: i64, shown_exponent: i64 },
}

/// Remainder of `e` divided by 3 as Rust's `%` gives it (its sign follows `e`).
pub open spec fn rem3(e: int) -> int {
    if e >= 0 {
        e % 3
    } else {
        -((-e) % 3)
    }
}

/// The layout of a number with exponent `exponent` in each mode: standard
/// prints plainly for exponents in -27..=27; engineering prints plainly in
/// -2..=2 and otherwise moves the exponent towards zero onto a multiple of
/// three; exponential prints plainly only for exponent 0.
pub open spec fn spec_layout(mode: NumberFormatMode, exponent: i64) -> NumberLayout {
    match mode {
        NumberFormatMode::Standard => if -27 <= exponent <= 27 {
            NumberLayout::Plain
        } else {
            NumberLayout::Scientific { mantissa_shift: 0, shown_exponent: exponent }
        },
        NumberFormatMode::Engineering => if -2 <= exponent <= 2 {
            NumberLayout::Plain
        } else {
            NumberLayout::Scientific {
                mantissa_shift: rem3(exponent as int) as i64,
                shown_exponent: (exponent - rem3(exponent as int)) as i64,
            }
        },
        NumberFormatMode::Exponential => if exponent == 0 {
            NumberLayout::Plain
        } else {
            NumberLayout::Scientific { mantissa_shift: 0, shown_exponent: exponent }
        },
    }
}

/// The layout used to show a big number with exponent `exponent` in `mode`.
pub fn format_layout(mode: NumberFormatMode, exponent: i64) -> (l: NumberLayout)
    ensures
        l == spec_layout(mode, exponent),
        mode == NumberFormatMode::Standard ==> (l == NumberLayout::Plain <==> -27 <= exponent <= 27),
        mode == NumberFormatMode::Standard && !(-27 <= exponent <= 27) ==> l == (
        NumberLayout::Scientific { mantissa_shift: 0, shown_exponent: exponent }),
        mode == NumberFormatMode::Engineering ==> (l == NumberLayout::Plain <==> -2 <= exponent
            <= 2),
        mode == NumberFormatMode::Engineering && !(-2 <= exponent <= 2) ==> (l is Scientific
            && l->shown_exponent % 3 == 0 && l->mantissa_shift + l->shown_exponent == exponent && (
        exponent > 0 ==> 0 <= l->mantissa_shift < 3) && (exponent < 0 ==> -3 < l->mantissa_shift
            <= 0)),
        mode == NumberFormatMode::Exponential ==> (l == NumberLayout::Plain <==> exponent == 0),
        mode == NumberFormatMode::Exponential && exponent != 0 ==> l == (NumberLayout::Scientific {
            mantissa_shift: 0,
            shown_exponent: exponent,
        }),
{
    match mode {
        NumberFormatMode::Standard => {
            if -27 <= exponent && exponent <= 27 {
                NumberLayout::Plain
            } else {
                NumberLayout::Scientific { mantissa_shift: 0, shown_exponent: exponent }
            }
        },
        NumberFormatMode::Engineering => {
            if -2 <= exponent && exponent <= 2 {
                NumberLayout::Plain
            } else {
                let remainder = exponent % 3;
                NumberLayout::Scientific {
                    mantissa_shift: remainder,
                    shown_exponent: exponent - remainder,
                }
            }
        },
        NumberFormatMode::Exponential => {
            if exponent == 0 {
                NumberLayout::Plain
            } else {
                NumberLayout::Scientific { mantissa_shift: 0, shown_exponent: exponent }
            }
        },
    }
}

/// In engineering layout the shown exponent is a multiple of three, the
/// mantissa moves by less than three places, and the value is unchanged:
/// shift plus shown exponent is the exponent.
pub proof fn lemma_engineering_exponent(exponent: i64)
    requires
        !(-2 <= exponent <= 2),
    ensures
        spec_layout(NumberFormatMode::Engineering, exponent) matches NumberLayout::Scientific {
            mantissa_shift,
            shown_exponent,
        } && shown_exponent % 3 == 0 && -3 < mantissa_shift < 3 && mantissa_shift
            + shown_exponent == exponent,
{
}

/// Every mode shows the number 10^0 range plainly: exponent 0 is plain in
/// all three modes.
pub proof fn lemma_exponent_zero_plain(mode: NumberFormatMode)
    ensures
        spec_layout(mode, 0) == NumberLayout::Plain,
{
}

/// How a big-number sum `self + other` or difference `self - other` is
/// carried out.
#[derive(Clone, Copy, Debug, PartialEq, Eq, Structural)]
pub enum SumPlan {
    /// The result is `other` (negated when `negate`, that is in a
    /// difference): `self` is zero, or `other`'s exponent is more than
    /// fifteen above `self`'s so that `self` is negligible.
    TakeOther { negate: bool },
    /// The result is `self` unchanged: `other` is zero, or `self`'s exponent
    /// is more than fifteen above `other`'s so that `other` is negligible.
    KeepSelf,
    /// The result has the larger of the two exponents (`self`'s when
    /// `self_is_larger`, which includes a tie, else `other`'s). The mantissa
    /// of the operand with the smaller exponent is divided by
    /// `10^exponent_gap`; the result's mantissa is then `self`'s mantissa
    /// plus `other`'s (for a sum) or minus `other`'s (for a difference, when
    /// `subtract`), and the result is normalised.
    Combine { self_is_larger: bool, exponent_gap: i64, subtract: bool },
}

/// The plan for `self + other` (or `self - other` when `subtract`) from
/// which operands are zero and their exponents: a zero operand or one more
/// than fifteen decimal places below the other is dropped, otherwise the
/// two are combined at the larger exponent.
pub open spec fn spec_sum_plan(
    subtract: bool,
    self_is_zero: bool,
    other_is_zero: bool,
    self_exponent: i64,
    other_exponent: i64,
) -> SumPlan {
    if self_is_zero {
        SumPlan::TakeOther { negate: subtract }
    } else if other_is_zero {
        SumPlan::KeepSelf
    } else if self_exponent - other_exponent > 15 {
        SumPlan::KeepSelf
    } else if other_exponent - self_exponent > 15 {
        SumPlan::TakeOther { negate: subtract }
    } else if self_exponent >= other_exponent {
        SumPlan::Combine {
            self_is_larger: true,
            exponent_gap: (self_exponent - other_exponent) as i64,
            subtract,
        }
    } else {
        SumPlan::Combine {
            self_is_larger: false,
            exponent_gap: (other_exponent - self_exponent) as i64,
            subtract,
        }
    }
}

/// Decides how to add `other` to `self` (or, when `subtract`, how to take
/// it from `self`). The exponent gap must fit in an `i64`.
pub fn sum_plan(
    subtract: bool,
    self_is_zero: bool,
    other_is_zero: bool,
    self_exponent: i64,
    other_exponent: i64,
) -> (p: SumPlan)
    requires
        !self_is_zero && !other_is_zero ==> i64::MIN <= self_exponent - other_exponent <= i64::MAX
            && i64::MIN <= other_exponent - self_exponent <= i64::MAX,
    ensures
        p == spec_sum_plan(subtract, self_is_zero, other_is_zero, self_exponent, other_exponent),
        p is Combine ==> p->subtract == subtract,
        p is Combine ==> !self_is_zero && !other_is_zero,
        p is Combine ==> (p->self_is_larger <==> self_exponent >= other_exponent),
        p is Combine && p->self_is_larger ==> p->exponent_gap == self_exponent - other_exponent,
        p is Combine && !p->self_is_larger ==> p->exponent_gap == other_exponent - self_exponent,
        p is TakeOther ==> p->negate == subtract,
        p is TakeOther <==> self_is_zero || (!other_is_zero && other_exponent - self_exponent > 15),
        p is KeepSelf <==> !self_is_zero && (other_is_zero || self_exponent - other_exponent > 15),
{
    if self_is_zero {
        return SumPlan::TakeOther { negate: subtract };
    }
    if other_is_zero {
        return SumPlan::KeepSelf;
    }
    let (big_exponent, small_exponent, self_is_larger) = if self_exponent >= other_exponent {
        (self_exponent, other_exponent, true)
    } else {
        (other_exponent, self_exponent, false)
    };
    let exponent_diff = big_exponent - small_exponent;
    if exponent_diff > 15 {
        if self_is_larger {
            return SumPlan::KeepSelf;
        } else {
            return SumPlan::TakeOther { negate: subtract };
        }
    }
    SumPlan::Combine { self_is_larger, exponent_gap: exponent_diff, subtract }
}

/// A zero operand does no arithmetic: `0 ± x` is `±x` and `x ± 0` is `x`;
/// a combined sum always scales by a gap of at most fifteen places.
pub proof fn lemma_sum_plan_shape(
    subtract: bool,
    self_is_zero: bool,
    other_is_zero: bool,
    self_exponent: i64,
    other_exponent: i64,
)
    ensures
        self_is_zero ==> spec_sum_plan(
            subtract,
            self_is_zero,
            other_is_zero,
            self_exponent,
            other_exponent,
        ) == (SumPlan::TakeOther { negate: subtract }),
        !self_is_zero && other_is_zero ==> spec_sum_plan(
            subtract,
            self_is_zero,
            other_is_zero,
            self_exponent,
            other_exponent,
        ) == SumPlan::KeepSelf,
        (spec_sum_plan(subtract, self_is_zero, other_is_zero, self_exponent, other_exponent) is Combine)
            ==> 0 <= spec_sum_plan(
            subtract,
            self_is_zero,
            other_is_zero,
            self_exponent,
            other_exponent,
        )->exponent_gap <= 15,
{
}

/// A negligible operand is dropped whichever side it stands on: when the
/// exponents of two non-zero operands are more than fifteen apart, the
/// result is the operand with the larger exponent (negated when it is the
/// subtrahend).
pub proof fn lemma_negligible_operand_dropped(
    subtract: bool,
    self_exponent: i64,
    other_exponent: i64,
)
    ensures
        self_exponent - other_exponent > 15 ==> spec_sum_plan(
            subtract,
            false,
            false,
            self_exponent,
            other_exponent,
        ) == SumPlan::KeepSelf,
        other_exponent - self_exponent > 15 ==> spec_sum_plan(
            subtract,
            false,
            false,
            self_exponent,
            other_exponent,
        ) == (SumPlan::TakeOther { negate: subtract }),
{
}

/// Addition plans are symmetric: swapping the operands of a sum of two
/// non-zero numbers swaps which one is taken, kept or treated as larger
/// (ties aside, where the left operand is the larger), and leaves the gap.
pub proof fn lemma_sum_plan_symmetric(self_exponent: i64, other_exponent: i64)
    requires
        self_exponent != other_exponent,
    ensures
        spec_sum_plan(false, false, false, self_exponent, other_exponent) == SumPlan::KeepSelf
            <==> spec_sum_plan(false, false, false, other_exponent, self_exponent)
            == (SumPlan::TakeOther { negate: false }),
        (spec_sum_plan(false, false, false, self_exponent, other_exponent) is Combine) ==> (
        spec_sum_plan(false, false, false, other_exponent, self_exponent) is Combine),
        (spec_sum_plan(false, false, false, self_exponent, other_exponent) is Combine) ==> (
        spec_sum_plan(false, false, false, self_exponent, other_exponent)->self_is_larger
            == !spec_sum_plan(false, false, false, other_exponent, self_exponent)->self_is_larger),
        (spec_sum_plan(false, false, false, self_exponent, other_exponent) is Combine) ==> (
        spec_sum_plan(false, false, false, self_exponent, other_exponent)->exponent_gap
            == spec_sum_plan(false, false, false, other_exponent, self_exponent)->exponent_gap),
{
}

/// A difference stays a difference and a sum stays a sum: whenever the plan
/// combines the two operands, it combines them with the operation asked
/// for, whichever operand has the larger exponent; and when it takes the
/// other operand in place of a negligible or zero `self`, it negates it
/// exactly in a difference.
pub proof fn lemma_sum_plan_keeps_operation(
    subtract: bool,
    self_is_zero: bool,
    other_is_zero: bool,
    self_exponent: i64,
    other_exponent: i64,
)
    ensures
        (spec_sum_plan(subtract, self_is_zero, other_is_zero, self_exponent, other_exponent) is Combine)
            ==> spec_sum_plan(
            subtract,
            self_is_zero,
            other_is_zero,
            self_exponent,
            other_exponent,
        )->subtract == subtract,
        (spec_sum_plan(subtract, self_is_zero, other_is_zero, self_exponent, other_exponent) is TakeOther)
            ==> spec_sum_plan(
            subtract,
            self_is_zero,
            other_is_zero,
            self_exponent,
            other_exponent,
        )->negate == subtract,
{
}

/// Exponential layout is plain for exponent 0 only; every other exponent is
/// shown unchanged after an unshifted mantissa.
pub proof fn lemma_exponential_layout(exponent: i64)
    ensures
        (spec_layout(NumberFormatMode::Exponential, exponent) == NumberLayout::Plain) <==> exponent
            == 0,
        exponent != 0 ==> spec_layout(NumberFormatMode::Exponential, exponent) == (
        NumberLayout::Scientific { mantissa_shift: 0, shown_exponent: exponent }),
{
}

/// Standard layout is plain exactly for exponents in -27..=27 and otherwise
/// shows the exponent unchanged after an unshifted mantissa.
pub proof fn lemma_standard_layout(exponent: i64)
    ensures
        (spec_layout(NumberFormatMode::Standard, exponent) == NumberLayout::Plain) <==> -27
            <= exponent <= 27,
        !(-27 <= exponent <= 27) ==> spec_layout(NumberFormatMode::Standard, exponent) == (
        NumberLayout::Scientific { mantissa_shift: 0, shown_exponent: exponent }),
{
}

} // verus!
