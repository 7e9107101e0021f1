use dragon_lair::number_format::{format_layout, sum_plan, NumberFormatMode, NumberLayout, SumPlan};

#[test]
fn standard_layout() {
    assert_eq!(format_layout(NumberFormatMode::Standard, 27), NumberLayout::Plain);
    assert_eq!(format_layout(NumberFormatMode::Standard, -27), NumberLayout::Plain);
    assert_eq!(
        format_layout(NumberFormatMode::Standard, 28),
        NumberLayout::Scientific { mantissa_shift: 0, shown_exponent: 28 }
    );
    assert_eq!(
        format_layout(NumberFormatMode::Standard, -28),
        NumberLayout::Scientific { mantissa_shift: 0, shown_exponent: -28 }
    );
}

#[test]
fn engineering_layout() {
    assert_eq!(format_layout(NumberFormatMode::Engineering, 2), NumberLayout::Plain);
    assert_eq!(format_layout(NumberFormatMode::Engineering, -2), NumberLayout::Plain);
    assert_eq!(
        format_layout(NumberFormatMode::Engineering, 7),
        NumberLayout::Scientific { mantissa_shift: 1, shown_exponent: 6 }
    );
    assert_eq!(
        format_layout(NumberFormatMode::Engineering, 9),
        NumberLayout::Scientific { mantissa_shift: 0, shown_exponent: 9 }
    );
    assert_eq!(
        format_layout(NumberFormatMode::Engineering, -5),
        NumberLayout::Scientific { mantissa_shift: -2, shown_exponent: -3 }
    );
    assert_eq!(
        format_layout(NumberFormatMode::Engineering, i64::MIN),
        NumberLayout::Scientific { mantissa_shift: i64::MIN % 3, shown_exponent: i64::MIN - i64::MIN % 3 }
    );
}

#[test]
fn exponential_layout() {
    assert_eq!(format_layout(NumberFormatMode::Exponential, 0), NumberLayout::Plain);
    assert_eq!(
        format_layout(NumberFormatMode::Exponential, 1),
        NumberLayout::Scientific { mantissa_shift: 0, shown_exponent: 1 }
    );
}

#[test]
fn sum_plans() {
    assert_eq!(sum_plan(false, true, false, 3, 4), SumPlan::TakeOther { negate: false });
    assert_eq!(sum_plan(false, true, true, 3, 4), SumPlan::TakeOther { negate: false });
    assert_eq!(sum_plan(false, false, true, 3, 4), SumPlan::KeepSelf);
    assert_eq!(sum_plan(false, false, false, 20, 3), SumPlan::KeepSelf);
    // 1 + 1e20 is 1e20: the negligible left operand is dropped.
    assert_eq!(sum_plan(false, false, false, 0, 20), SumPlan::TakeOther { negate: false });
    assert_eq!(sum_plan(false, false, false, 18, 3), SumPlan::Combine { self_is_larger: true, exponent_gap: 15, subtract: false });
    assert_eq!(sum_plan(false, false, false, 3, 18), SumPlan::Combine { self_is_larger: false, exponent_gap: 15, subtract: false });
    assert_eq!(sum_plan(false, false, false, 2, 5), SumPlan::Combine { self_is_larger: false, exponent_gap: 3, subtract: false });
    assert_eq!(sum_plan(false, false, false, 4, 4), SumPlan::Combine { self_is_larger: true, exponent_gap: 0, subtract: false });
}

#[test]
fn difference_plans() {
    // 0 - 5 is -5.
    assert_eq!(sum_plan(true, true, false, 0, 0), SumPlan::TakeOther { negate: true });
    // 5 - 0 is 5.
    assert_eq!(sum_plan(true, false, true, 0, 0), SumPlan::KeepSelf);
    // 1 - 1e20 is -1e20.
    assert_eq!(sum_plan(true, false, false, 0, 20), SumPlan::TakeOther { negate: true });
    assert_eq!(sum_plan(true, false, false, 20, 0), SumPlan::KeepSelf);
    // 1 - 10: the result takes 10's exponent and subtracts 10's mantissa from 1's.
    assert_eq!(sum_plan(true, false, false, 0, 1), SumPlan::Combine { self_is_larger: false, exponent_gap: 1, subtract: true });
}
