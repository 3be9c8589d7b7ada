//! Looking a field up by its number, replacing its value, and the rules by
//! which the summary fields of several sessions become those of one.

use crate::protocol::{DataMessageView, FitDataMessage};
use crate::protocol::data_field::{fields_view, DataField, DataFieldView};
use crate::protocol::value::{
    lemma_mod_shift, lemma_wrap_reduce, trunc_div, wrap_signed, wrap_unsigned, Value, ValueView,
};
use vstd::prelude::*;

verus! {

/// How a summary field of several sessions becomes that of one.
#[derive(Debug, Copy, Clone, PartialEq, Eq, Structural)]
pub enum MergeRule {
    /// The largest of the values.
    Max,
    /// The smallest of the values.
    Min,
    /// The sum of the values.
    Sum,
    /// The sum of the values divided by their number.
    Avg,
}

/// The variant of `Value` that a summary field is written as.
#[derive(Debug, Copy, Clone, PartialEq, Eq, Structural)]
pub enum Native {
    U8,
    I8,
    U16,
    I16,
    U32,
    Time,
}

/// The number of summary fields that a merge recomputes.
pub const SUMMARY_RULE_COUNT: usize = 31;

/// The summary fields of a session that a merge recomputes: the number of
/// the field, its rule, and the variant that it is written as.
pub const SUMMARY_RULES: [(u8, MergeRule, Native); 31] = [
    (253, MergeRule::Max, Native::Time),
    (15, MergeRule::Max, Native::U16),
    (21, MergeRule::Max, Native::U16),
    (50, MergeRule::Max, Native::U16),
    (55, MergeRule::Max, Native::I16),
    (56, MergeRule::Max, Native::I16),
    (17, MergeRule::Max, Native::U8),
    (19, MergeRule::Max, Native::U8),
    (58, MergeRule::Max, Native::I8),
    (2, MergeRule::Min, Native::Time),
    (71, MergeRule::Min, Native::U16),
    (64, MergeRule::Min, Native::U8),
    (7, MergeRule::Sum, Native::U32),
    (8, MergeRule::Sum, Native::U32),
    (9, MergeRule::Sum, Native::U32),
    (59, MergeRule::Sum, Native::U32),
    (11, MergeRule::Sum, Native::U16),
    (22, MergeRule::Sum, Native::U16),
    (23, MergeRule::Sum, Native::U16),
    (14, MergeRule::Avg, Native::U16),
    (20, MergeRule::Avg, Native::U16),
    (34, MergeRule::Avg, Native::U16),
    (49, MergeRule::Avg, Native::U16),
    (52, MergeRule::Avg, Native::I16),
    (53, MergeRule::Avg, Native::I16),
    (54, MergeRule::Avg, Native::I16),
    (60, MergeRule::Avg, Native::I16),
    (61, MergeRule::Avg, Native::I16),
    (16, MergeRule::Avg, Native::U8),
    (18, MergeRule::Avg, Native::U8),
    (57, MergeRule::Avg, Native::I8),
];

/// The place of the first field from `from` on that has the number
/// `field_num`.
pub open spec fn spec_find_from(values: Seq<DataFieldView>, field_num: u8, from: int) -> Option<int>
    decreases values.len() - from,
{
    if from < 0 || from >= values.len() {
        None
    } else if values[from].field_num == field_num {
        Some(from)
    } else {
        spec_find_from(values, field_num, from + 1)
    }
}

/// The value of the first field that has the number `field_num`.
pub open spec fn spec_get_field_value(field_num: u8, values: Seq<DataFieldView>) -> Option<
    ValueView,
> {
    match spec_find_from(values, field_num, 0) {
        Some(i) => Some(values[i].value),
        None => None,
    }
}

/// The fields with `value` as the value of the first field that has the
/// number `field_num`; unchanged where no field has that number.
pub open spec fn spec_update_field(
    values: Seq<DataFieldView>,
    field_num: u8,
    value: ValueView,
) -> Seq<DataFieldView> {
    match spec_find_from(values, field_num, 0) {
        Some(i) => values.update(i, DataFieldView { field_num, value }),
        None => values,
    }
}

/// The least number of a variant.
pub open spec fn spec_native_min(native: Native) -> int {
    match native {
        Native::I8 => -0x80,
        Native::I16 => -0x8000,
        _ => 0,
    }
}

/// The greatest number of a variant.
pub open spec fn spec_native_max(native: Native) -> int {
    match native {
        Native::U8 => 0xFF,
        Native::I8 => 0x7F,
        Native::U16 => 0xFFFF,
        Native::I16 => 0x7FFF,
        Native::U32 => 0xFFFF_FFFF,
        Native::Time => 0xFFFF_FFFF,
    }
}

/// The number `x` brought into a variant by wrapping at its width.
pub open spec fn spec_native_wrap(native: Native, x: int) -> int {
    match native {
        Native::U8 => wrap_unsigned(x, 0x100),
        Native::I8 => wrap_signed(x, 0x100),
        Native::U16 => wrap_unsigned(x, 0x1_0000),
        Native::I16 => wrap_signed(x, 0x1_0000),
        Native::U32 => wrap_unsigned(x, 0x1_0000_0000),
        Native::Time => wrap_unsigned(x, 0x1_0000_0000),
    }
}

/// The value of a variant that holds the number `x` of its range.
pub open spec fn spec_native_value(native: Native, x: int) -> ValueView {
    match native {
        Native::U8 => ValueView::U8(x as u8),
        Native::I8 => ValueView::I8(x as i8),
        Native::U16 => ValueView::U16(x as u16),
        Native::I16 => ValueView::I16(x as i16),
        Native::U32 => ValueView::U32(x as u32),
        Native::Time => ValueView::Time(x as u32),
    }
}

/// The number that a value holds, where it is of the variant `native`.
pub open spec fn spec_native_sample(native: Native, v: Option<ValueView>) -> Option<int> {
    match v {
        Some(ValueView::U8(x)) => if native == Native::U8 {
            Some(x as int)
        } else {
            None
        },
        Some(ValueView::I8(x)) => if native == Native::I8 {
            Some(x as int)
        } else {
            None
        },
        Some(ValueView::U16(x)) => if native == Native::U16 {
            Some(x as int)
        } else {
            None
        },
        Some(ValueView::I16(x)) => if native == Native::I16 {
            Some(x as int)
        } else {
            None
        },
        Some(ValueView::U32(x)) => if native == Native::U32 {
            Some(x as int)
        } else {
            None
        },
        Some(ValueView::Time(x)) => if native == Native::Time {
            Some(x as int)
        } else {
            None
        },
        _ => None,
    }
}

/// The number that a value adds to an average: that of a value of 8 or 16
/// bits, signed or not.
pub open spec fn spec_avg_sample(v: Option<ValueView>) -> Option<int> {
    match v {
        Some(ValueView::U8(x)) => Some(x as int),
        Some(ValueView::I8(x)) => Some(x as int),
        Some(ValueView::U16(x)) => Some(x as int),
        Some(ValueView::I16(x)) => Some(x as int),
        _ => None,
    }
}

/// What a session adds to a summary field under a rule: the number of the
/// field's value, where the session has the field with a value that the
/// rule counts.
pub open spec fn spec_sample(
    rule: MergeRule,
    native: Native,
    field_num: u8,
    s: DataMessageView,
) -> Option<int> {
    let v = spec_get_field_value(field_num, s.values);
    if rule == MergeRule::Avg {
        spec_avg_sample(v)
    } else {
        spec_native_sample(native, v)
    }
}

/// How many of the sessions add to a summary field.
pub open spec fn spec_count(
    rule: MergeRule,
    native: Native,
    field_num: u8,
    sessions: Seq<DataMessageView>,
) -> int
    decreases sessions.len(),
{
    if sessions.len() == 0 {
        0
    } else {
        spec_count(rule, native, field_num, sessions.drop_last()) + (if spec_sample(
            rule,
            native,
            field_num,
            sessions.last(),
        ) is Some {
            1int
        } else {
            0int
        })
    }
}

/// The sum of what the sessions add to a summary field.
pub open spec fn spec_total(
    rule: MergeRule,
    native: Native,
    field_num: u8,
    sessions: Seq<DataMessageView>,
) -> int
    decreases sessions.len(),
{
    if sessions.len() == 0 {
        0
    } else {
        spec_total(rule, native, field_num, sessions.drop_last()) + (match spec_sample(
            rule,
            native,
            field_num,
            sessions.last(),
        ) {
            Some(x) => x,
            None => 0,
        })
    }
}

/// The largest of what the sessions add to a summary field, and the least
/// number of the variant where none adds anything.
pub open spec fn spec_largest(native: Native, field_num: u8, sessions: Seq<DataMessageView>) -> int
    decreases sessions.len(),
{
    if sessions.len() == 0 {
        spec_native_min(native)
    } else {
        let rest = spec_largest(native, field_num, sessions.drop_last());
        match spec_sample(MergeRule::Max, native, field_num, sessions.last()) {
            Some(x) => if x > rest {
                x
            } else {
                rest
            },
            None => rest,
        }
    }
}

/// The smallest of what the sessions add to a summary field, and the
/// greatest number of the variant where none adds anything.
pub open spec fn spec_smallest(native: Native, field_num: u8, sessions: Seq<DataMessageView>) -> int
    decreases sessions.len(),
{
    if sessions.len() == 0 {
        spec_native_max(native)
    } else {
        let rest = spec_smallest(native, field_num, sessions.drop_last());
        match spec_sample(MergeRule::Min, native, field_num, sessions.last()) {
            Some(x) => if x < rest {
                x
            } else {
                rest
            },
            None => rest,
        }
    }
}

/// The value of a summary field over several sessions.
///
/// `Max` and `Min` are taken over the values of the field's own variant.
/// `Sum` adds them and wraps at the field's width. `Avg` adds the values of
/// 8 or 16 bits in a signed 32-bit sum that wraps, divides by their number
/// towards zero and wraps at the field's width; it has no value where no
/// session adds one.
pub open spec fn spec_aggregate(
    rule: MergeRule,
    native: Native,
    field_num: u8,
    sessions: Seq<DataMessageView>,
) -> Option<ValueView> {
    match rule {
        MergeRule::Max => Some(
            spec_native_value(native, spec_largest(native, field_num, sessions)),
        ),
        MergeRule::Min => Some(
            spec_native_value(native, spec_smallest(native, field_num, sessions)),
        ),
        MergeRule::Sum => Some(
            spec_native_value(
                native,
                spec_native_wrap(native, spec_total(rule, native, field_num, sessions)),
            ),
        ),
        MergeRule::Avg => {
            let count = spec_count(rule, native, field_num, sessions);
            if count > 0 {
                Some(
                    spec_native_value(
                        native,
                        spec_native_wrap(
                            native,
                            trunc_div(
                                wrap_signed(
                                    spec_total(rule, native, field_num, sessions),
                                    0x1_0000_0000,
                                ),
                                count,
                            ),
                        ),
                    ),
                )
            } else {
                None
            }
        },
    }
}

/// The largest is no less than what any session adds, and is what some
/// session adds unless it is the least number of the variant.
pub proof fn lemma_largest_is_greatest(
    native: Native,
    field_num: u8,
    sessions: Seq<DataMessageView>,
)
    ensures
        forall|i: int|
            0 <= i < sessions.len() && (#[trigger] spec_sample(
                MergeRule::Max,
                native,
                field_num,
                sessions[i],
            )) is Some ==> spec_sample(MergeRule::Max, native, field_num, sessions[i])->0
                <= spec_largest(native, field_num, sessions),
        spec_largest(native, field_num, sessions) == spec_native_min(native) || exists|i: int|
            0 <= i < sessions.len() && #[trigger] spec_sample(
                MergeRule::Max,
                native,
                field_num,
                sessions[i],
            ) == Some(spec_largest(native, field_num, sessions)),
    decreases sessions.len(),
{
    if sessions.len() > 0 {
        let front = sessions.drop_last();
        lemma_largest_is_greatest(native, field_num, front);
        let top = spec_largest(native, field_num, sessions);
        assert forall|i: int|
            0 <= i < sessions.len() && (#[trigger] spec_sample(
                MergeRule::Max,
                native,
                field_num,
                sessions[i],
            )) is Some implies spec_sample(MergeRule::Max, native, field_num, sessions[i])->0
            <= top by {
            if i < front.len() {
                assert(front[i] == sessions[i]);
            }
        }
        if top != spec_native_min(native) {
            if spec_sample(MergeRule::Max, native, field_num, sessions.last()) == Some(top) {
                assert(sessions[sessions.len() - 1] == sessions.last());
            } else {
                let i = choose|i: int|
                    0 <= i < front.len() && #[trigger] spec_sample(
                        MergeRule::Max,
                        native,
                        field_num,
                        front[i],
                    ) == Some(spec_largest(native, field_num, front));
                assert(front[i] == sessions[i]);
            }
        }
    }
}

/// The smallest is no more than what any session adds, and is what some
/// session adds unless it is the greatest number of the variant.
pub proof fn lemma_smallest_is_least(
    native: Native,
    field_num: u8,
    sessions: Seq<DataMessageView>,
)
    ensures
        forall|i: int|
            0 <= i < sessions.len() && (#[trigger] spec_sample(
                MergeRule::Min,
                native,
                field_num,
                sessions[i],
            )) is Some ==> spec_sample(MergeRule::Min, native, field_num, sessions[i])->0
                >= spec_smallest(native, field_num, sessions),
        spec_smallest(native, field_num, sessions) == spec_native_max(native) || exists|i: int|
            0 <= i < sessions.len() && #[trigger] spec_sample(
                MergeRule::Min,
                native,
                field_num,
                sessions[i],
            ) == Some(spec_smallest(native, field_num, sessions)),
    decreases sessions.len(),
{
    if sessions.len() > 0 {
        let front = sessions.drop_last();
        lemma_smallest_is_least(native, field_num, front);
        let low = spec_smallest(native, field_num, sessions);
        assert forall|i: int|
            0 <= i < sessions.len() && (#[trigger] spec_sample(
                MergeRule::Min,
                native,
                field_num,
                sessions[i],
            )) is Some implies spec_sample(MergeRule::Min, native, field_num, sessions[i])->0
            >= low by {
            if i < front.len() {
                assert(front[i] == sessions[i]);
            }
        }
        if low != spec_native_max(native) {
            if spec_sample(MergeRule::Min, native, field_num, sessions.last()) == Some(low) {
                assert(sessions[sessions.len() - 1] == sessions.last());
            } else {
                let i = choose|i: int|
                    0 <= i < front.len() && #[trigger] spec_sample(
                        MergeRule::Min,
                        native,
                        field_num,
                        front[i],
                    ) == Some(spec_smallest(native, field_num, front));
                assert(front[i] == sessions[i]);
            }
        }
    }
}

/// Sessions that add nothing to a summary field change neither the number
/// of those that do nor their sum: absent values are no zeros.
pub proof fn lemma_absent_adds_nothing(
    rule: MergeRule,
    native: Native,
    field_num: u8,
    sessions: Seq<DataMessageView>,
    extra: DataMessageView,
)
    requires
        spec_sample(rule, native, field_num, extra) is None,
    ensures
        spec_count(rule, native, field_num, sessions.push(extra)) == spec_count(
            rule,
            native,
            field_num,
            sessions,
        ),
        spec_total(rule, native, field_num, sessions.push(extra)) == spec_total(
            rule,
            native,
            field_num,
            sessions,
        ),
        spec_aggregate(rule, native, field_num, sessions.push(extra)) == spec_aggregate(
            rule,
            native,
            field_num,
            sessions,
        ),
{
    assert(sessions.push(extra).drop_last() =~= sessions);
}

/// The data messages of a sequence of data records.
pub open spec fn session_views(s: Seq<FitDataMessage>) -> Seq<DataMessageView> {
    Seq::new(s.len(), |i: int| s[i].data@)
}

/// The place of the first field that has the number `field_num`.
fn find_field(field_num: u8, values: &[DataField]) -> (r: Option<usize>)
    ensures
        match r {
            Some(i) => i < values@.len() && spec_find_from(fields_view(values@), field_num, 0)
                == Some(i as int),
            None => spec_find_from(fields_view(values@), field_num, 0) is None,
        },
{
    let mut i: usize = 0;
    while i < values.len()
        invariant
            i <= values.len(),
            spec_find_from(fields_view(values@), field_num, 0) == spec_find_from(
                fields_view(values@),
                field_num,
                i as int,
            ),
        decreases values.len() - i,
    {
        if values[i].field_num == field_num {
            return Some(i);
        }
        i += 1;
    }
    None
}

/// The value of the first field that has the number `field_num`.
pub fn get_field_value(field_num: u8, values: &[DataField]) -> (r: Option<Value>)
    ensures
        match r {
            Some(v) => spec_get_field_value(field_num, fields_view(values@)) == Some(v@),
            None => spec_get_field_value(field_num, fields_view(values@)) is None,
        },
{
    match find_field(field_num, values) {
        Some(i) => Some(values[i].value.clone_value()),
        None => None,
    }
}

/// Gives the first field that has the number `field_num` the value
/// `value`; changes nothing where no field has that number.
pub fn update_field(fields: &mut Vec<DataField>, field_num: u8, value: Value)
    ensures
        fields_view(final(fields)@) == spec_update_field(
            fields_view(old(fields)@),
            field_num,
            value@,
        ),
{
    match find_field(field_num, fields.as_slice()) {
        Some(i) => {
            fields.set(i, DataField { field_num, value });
            proof {
                assert(fields_view(fields@) =~= fields_view(old(fields)@).update(
                    i as int,
                    DataFieldView { field_num, value: value@ },
                ));
            }
        },
        None => {},
    }
}

/// The number that a value holds, where it is of the variant `native`.
fn native_sample(native: Native, v: &Option<Value>) -> (r: Option<i64>)
    ensures
        match r {
            Some(x) => spec_native_sample(
                native,
                match *v {
                    Some(w) => Some(w@),
                    None => None,
                },
            ) == Some(x as int),
            None => spec_native_sample(
                native,
                match *v {
                    Some(w) => Some(w@),
                    None => None,
                },
            ) is None,
        },
{
    match v {
        Some(Value::U8(x)) => match native {
            Native::U8 => Some(*x as i64),
            _ => None,
        },
        Some(Value::I8(x)) => match native {
            Native::I8 => Some(*x as i64),
            _ => None,
        },
        Some(Value::U16(x)) => match native {
            Native::U16 => Some(*x as i64),
            _ => None,
        },
        Some(Value::I16(x)) => match native {
            Native::I16 => Some(*x as i64),
            _ => None,
        },
        Some(Value::U32(x)) => match native {
            Native::U32 => Some(*x as i64),
            _ => None,
        },
        Some(Value::Time(x)) => match native {
            Native::Time => Some(*x as i64),
            _ => None,
        },
        _ => None,
    }
}

/// The number that a value adds to an average.
fn avg_sample(v: &Option<Value>) -> (r: Option<i64>)
    ensures
        match r {
            Some(x) => spec_avg_sample(
                match *v {
                    Some(w) => Some(w@),
                    None => None,
                },
            ) == Some(x as int),
            None => spec_avg_sample(
                match *v {
                    Some(w) => Some(w@),
                    None => None,
                },
            ) is None,
        },
{
    match v {
        Some(Value::U8(x)) => Some(*x as i64),
        Some(Value::I8(x)) => Some(*x as i64),
        Some(Value::U16(x)) => Some(*x as i64),
        Some(Value::I16(x)) => Some(*x as i64),
        _ => None,
    }
}

/// What a session adds to a summary field under a rule.
fn sample(rule: MergeRule, native: Native, field_num: u8, session: &FitDataMessage) -> (r: Option<
    i64,
>)
    ensures
        match r {
            Some(x) => spec_sample(rule, native, field_num, session.data@) == Some(x as int),
            None => spec_sample(rule, native, field_num, session.data@) is None,
        },
        r is Some ==> -0x8000 <= r->0 <= 0xFFFF_FFFF,
{
    let v = get_field_value(field_num, session.data.values.as_slice());
    match rule {
        MergeRule::Avg => avg_sample(&v),
        _ => native_sample(native, &v),
    }
}

/// The least number of a variant.
fn native_min(native: Native) -> (r: i64)
    ensures
        r == spec_native_min(native),
{
    match native {
        Native::I8 => -0x80,
        Native::I16 => -0x8000,
        _ => 0,
    }
}

/// The greatest number of a variant.
fn native_max(native: Native) -> (r: i64)
    ensures
        r == spec_native_max(native),
{
    match native {
        Native::U8 => 0xFF,
        Native::I8 => 0x7F,
        Native::U16 => 0xFFFF,
        Native::I16 => 0x7FFF,
        Native::U32 => 0xFFFF_FFFF,
        Native::Time => 0xFFFF_FFFF,
    }
}

/// The number `x` brought into a variant by wrapping at its width.
fn native_wrap(native: Native, x: i64) -> (r: i64)
    requires
        -0x1_0000_0000 <= x <= 0x1_0000_0000,
    ensures
        r == spec_native_wrap(native, x as int),
        spec_native_min(native) <= r <= spec_native_max(native),
{
    proof {
        lemma_mod_shift(x as int, 0x100, 0x100_0000);
        lemma_mod_shift(x + 0x80, 0x100, 0x100_0000);
        lemma_mod_shift(x as int, 0x1_0000, 0x1_0000);
        lemma_mod_shift(x + 0x8000, 0x1_0000, 0x1_0000);
        lemma_mod_shift(x as int, 0x1_0000_0000, 1);
    }
    match native {
        Native::U8 => (((x + 0x1_0000_0000) as u64) % 0x100) as i64,
        Native::I8 => (((x + 0x80 + 0x1_0000_0000) as u64) % 0x100) as i64 - 0x80,
        Native::U16 => (((x + 0x1_0000_0000) as u64) % 0x1_0000) as i64,
        Native::I16 => (((x + 0x8000 + 0x1_0000_0000) as u64) % 0x1_0000) as i64 - 0x8000,
        Native::U32 => (((x + 0x1_0000_0000) as u64) % 0x1_0000_0000) as i64,
        Native::Time => (((x + 0x1_0000_0000) as u64) % 0x1_0000_0000) as i64,
    }
}

/// Wrapping a sum at a variant's width can start from the sum reduced at
/// 32 bits.
pub proof fn lemma_native_wrap_reduce(native: Native, t: int)
    ensures
        spec_native_wrap(native, t % 0x1_0000_0000) == spec_native_wrap(native, t),
{
    match native {
        Native::U8 => {
            lemma_wrap_reduce(t, 0, 0x100, 0x100_0000);
        },
        Native::I8 => {
            lemma_wrap_reduce(t, 0x80, 0x100, 0x100_0000);
        },
        Native::U16 => {
            lemma_wrap_reduce(t, 0, 0x1_0000, 0x1_0000);
        },
        Native::I16 => {
            lemma_wrap_reduce(t, 0x8000, 0x1_0000, 0x1_0000);
        },
        Native::U32 => {
            lemma_wrap_reduce(t, 0, 0x1_0000_0000, 1);
        },
        Native::Time => {
            lemma_wrap_reduce(t, 0, 0x1_0000_0000, 1);
        },
    }
}

/// The value of a variant that holds the number `x` of its range.
fn native_value(native: Native, x: i64) -> (v: Value)
    requires
        spec_native_min(native) <= x <= spec_native_max(native),
    ensures
        v@ == spec_native_value(native, x as int),
{
    match native {
        Native::U8 => Value::U8(x as u8),
        Native::I8 => Value::I8(x as i8),
        Native::U16 => Value::U16(x as u16),
        Native::I16 => Value::I16(x as i16),
        Native::U32 => Value::U32(x as u32),
        Native::Time => Value::Time(x as u32),
    }
}

/// The sum of what the sessions add to a summary field, reduced at 32
/// bits, and how many of them add to it.
fn fold_total(rule: MergeRule, native: Native, field_num: u8, sessions: &Vec<FitDataMessage>) -> (r:
    (u64, usize))
    ensures
        r.0 == spec_total(rule, native, field_num, session_views(sessions@)) % 0x1_0000_0000,
        r.1 == spec_count(rule, native, field_num, session_views(sessions@)),
{
    let ghost all = session_views(sessions@);
    let mut total: u64 = 0;
    let mut count: usize = 0;
    let mut i: usize = 0;
    while i < sessions.len()
        invariant
            i <= sessions.len(),
            all == session_views(sessions@),
            total == spec_total(rule, native, field_num, all.take(i as int)) % 0x1_0000_0000,
            count == spec_count(rule, native, field_num, all.take(i as int)),
            count <= i,
        decreases sessions.len() - i,
    {
        proof {
            let next = all.take(i as int + 1);
            assert(next.drop_last() =~= all.take(i as int));
            assert(next.last() == sessions@[i as int].data@);
        }
        match sample(rule, native, field_num, &sessions[i]) {
            Some(x) => {
                proof {
                    let t = spec_total(rule, native, field_num, all.take(i as int));
                    lemma_wrap_reduce(t, x as int, 0x1_0000_0000, 1);
                    lemma_mod_shift(total + x, 0x1_0000_0000, 1);
                }
                total = ((total as i64 + x + 0x1_0000_0000) as u64) % 0x1_0000_0000;
                count = count + 1;
            },
            None => {},
        }
        i += 1;
    }
    proof {
        assert(all.take(i as int) =~= all);
    }
    (total, count)
}

/// The largest of what the sessions add to a summary field.
fn fold_largest(native: Native, field_num: u8, sessions: &Vec<FitDataMessage>) -> (r: i64)
    ensures
        r == spec_largest(native, field_num, session_views(sessions@)),
        spec_native_min(native) <= r <= spec_native_max(native),
{
    let ghost all = session_views(sessions@);
    let mut largest: i64 = native_min(native);
    let mut i: usize = 0;
    while i < sessions.len()
        invariant
            i <= sessions.len(),
            all == session_views(sessions@),
            largest == spec_largest(native, field_num, all.take(i as int)),
            spec_native_min(native) <= largest <= spec_native_max(native),
        decreases sessions.len() - i,
    {
        proof {
            let next = all.take(i as int + 1);
            assert(next.drop_last() =~= all.take(i as int));
            assert(next.last() == sessions@[i as int].data@);
        }
        match sample(MergeRule::Max, native, field_num, &sessions[i]) {
            Some(x) => {
                if x > largest {
                    largest = x;
                }
            },
            None => {},
        }
        i += 1;
    }
    proof {
        assert(all.take(i as int) =~= all);
    }
    largest
}

/// The smallest of what the sessions add to a summary field.
fn fold_smallest(native: Native, field_num: u8, sessions: &Vec<FitDataMessage>) -> (r: i64)
    ensures
        r == spec_smallest(native, field_num, session_views(sessions@)),
        spec_native_min(native) <= r <= spec_native_max(native),
{
    let ghost all = session_views(sessions@);
    let mut smallest: i64 = native_max(native);
    let mut i: usize = 0;
    while i < sessions.len()
        invariant
            i <= sessions.len(),
            all == session_views(sessions@),
            smallest == spec_smallest(native, field_num, all.take(i as int)),
            spec_native_min(native) <= smallest <= spec_native_max(native),
        decreases sessions.len() - i,
    {
        proof {
            let next = all.take(i as int + 1);
            assert(next.drop_last() =~= all.take(i as int));
            assert(next.last() == sessions@[i as int].data@);
        }
        match sample(MergeRule::Min, native, field_num, &sessions[i]) {
            Some(x) => {
                if x < smallest {
                    smallest = x;
                }
            },
            None => {},
        }
        i += 1;
    }
    proof {
        assert(all.take(i as int) =~= all);
    }
    smallest
}

/// The mean of a sum of `count` numbers that is given reduced at 32 bits:
/// the signed number of those bits, divided towards zero.
fn mean_of(total: u64, count: usize) -> (r: i64)
    requires
        total < 0x1_0000_0000,
        count > 0,
    ensures
        r == trunc_div(
            if total < 0x8000_0000 {
                total as int
            } else {
                total - 0x1_0000_0000
            },
            count as int,
        ),
        -0x8000_0000 <= r <= 0x8000_0000,
{
    if total < 0x8000_0000 {
        let q: u64 = total / (count as u64);
        proof {
            assert(0 <= total as int / count as int <= total) by (nonlinear_arith)
                requires
                    total >= 0,
                    count >= 1,
            ;
        }
        q as i64
    } else {
        let mag: u64 = 0x1_0000_0000 - total;
        let q: u64 = mag / (count as u64);
        proof {
            assert(0 <= mag as int / count as int <= mag) by (nonlinear_arith)
                requires
                    mag >= 0,
                    count >= 1,
            ;
        }
        -(q as i64)
    }
}

/// The value of a summary field over several sessions.
pub fn aggregate(
    rule: MergeRule,
    native: Native,
    field_num: u8,
    sessions: &Vec<FitDataMessage>,
) -> (r: Option<Value>)
    ensures
        match r {
            Some(v) => spec_aggregate(rule, native, field_num, session_views(sessions@)) == Some(
                v@,
            ),
            None => spec_aggregate(rule, native, field_num, session_views(sessions@)) is None,
        },
{
    let ghost all = session_views(sessions@);
    match rule {
        MergeRule::Max => Some(native_value(native, fold_largest(native, field_num, sessions))),
        MergeRule::Min => Some(native_value(native, fold_smallest(native, field_num, sessions))),
        MergeRule::Sum => {
            let (total, _) = fold_total(rule, native, field_num, sessions);
            proof {
                lemma_native_wrap_reduce(native, spec_total(rule, native, field_num, all));
            }
            Some(native_value(native, native_wrap(native, total as i64)))
        },
        MergeRule::Avg => {
            let (total, count) = fold_total(rule, native, field_num, sessions);
            if count > 0 {
                proof {
                    let t = spec_total(rule, native, field_num, all);
                    lemma_wrap_reduce(t, 0x8000_0000, 0x1_0000_0000, 1);
                }
                let mean: i64 = mean_of(total, count);
                Some(native_value(native, native_wrap(native, mean)))
            } else {
                None
            }
        },
    }
}

} // verus!
