//! What holds of every routine that is laid out: where each step stands.
//!
//! The proofs are stated over [`routine_steps`], which
//! [`generate`](super::try_accounts::generate) computes.

use crate::accounts::AccountFieldView;
use crate::codegen::accounts::try_accounts::{
    check_steps, deserialize_step, deserialize_steps, field_checks, routine_steps,
};
use crate::routine::{records_taken_before, StepView};
use vstd::prelude::*;

verus! {

/// The number of steps in the first phase, which is where the second starts.
pub open spec fn associated_phase_start(fields: Seq<AccountFieldView>) -> int {
    fields.len() as int
}

/// Where the third phase starts.
pub open spec fn ordinary_phase_start(fields: Seq<AccountFieldView>) -> int {
    (fields.len() + check_steps(fields, true, fields.len() as int).len()) as int
}

/// Whether a step checks a constraint that one of the first `n` fields has,
/// the field being one that was held back (`deferred`) or one that was not.
pub open spec fn is_check_of(
    step: StepView,
    fields: Seq<AccountFieldView>,
    deferred: bool,
    n: int,
) -> bool {
    &&& step matches StepView::Check { field, constraint }
    &&& 0 <= field < n
    &&& 0 <= constraint < fields[field].constraints().len()
    &&& fields[field].is_associated_init() == deferred
}

/// Whether two steps are checks, the first of an earlier field than the
/// second, or of the same field and an earlier constraint.
pub open spec fn checked_before(first: StepView, second: StepView) -> bool {
    &&& first matches StepView::Check { field: f1, constraint: k1 }
    &&& second matches StepView::Check { field: f2, constraint: k2 }
    &&& (f1 < f2 || (f1 == f2 && k1 < k2))
}

/// The step that checks one constraint of one field.
pub open spec fn check_of(field: int, constraint: int) -> StepView {
    StepView::Check { field, constraint }
}

/// The checks of one phase: each is the check of a constraint of a field of
/// that phase, they stand in declaration order, and none is missing.
proof fn check_steps_shape(fields: Seq<AccountFieldView>, deferred: bool, n: int)
    requires
        0 <= n <= fields.len(),
    ensures
        forall|p: int|
            0 <= p < check_steps(fields, deferred, n).len() ==> is_check_of(
                #[trigger] check_steps(fields, deferred, n)[p],
                fields,
                deferred,
                n,
            ),
        forall|p: int, q: int|
            0 <= p < q < check_steps(fields, deferred, n).len() ==> checked_before(
                #[trigger] check_steps(fields, deferred, n)[p],
                #[trigger] check_steps(fields, deferred, n)[q],
            ),
        forall|f: int, k: int|
            0 <= f < n && fields[f].is_associated_init() == deferred && 0 <= k
                < fields[f].constraints().len() ==> check_steps(fields, deferred, n).contains(
                #[trigger] check_of(f, k),
            ),
    decreases n,
{
    if n > 0 {
        check_steps_shape(fields, deferred, n - 1);
        let before = check_steps(fields, deferred, n - 1);
        let all = check_steps(fields, deferred, n);
        if fields[n - 1].is_associated_init() == deferred {
            let own = field_checks(fields, n - 1);
            assert(all == before + own);
            assert forall|p: int| 0 <= p < all.len() implies is_check_of(
                #[trigger] all[p],
                fields,
                deferred,
                n,
            ) by {
                if p < before.len() {
                    assert(all[p] == before[p]);
                } else {
                    assert(all[p] == own[p - before.len()]);
                }
            }
            assert forall|p: int, q: int| 0 <= p < q < all.len() implies checked_before(
                #[trigger] all[p],
                #[trigger] all[q],
            ) by {
                if q < before.len() {
                    assert(all[p] == before[p] && all[q] == before[q]);
                } else if p < before.len() {
                    assert(all[p] == before[p]);
                    assert(all[q] == own[q - before.len()]);
                    assert(is_check_of(before[p], fields, deferred, n - 1));
                } else {
                    assert(all[p] == own[p - before.len()]);
                    assert(all[q] == own[q - before.len()]);
                }
            }
            assert forall|f: int, k: int|
                0 <= f < n && fields[f].is_associated_init() == deferred && 0 <= k
                    < fields[f].constraints().len() implies all.contains(
                #[trigger] check_of(f, k),
            ) by {
                let step = check_of(f, k);
                if f < n - 1 {
                    assert(before.contains(step));
                    let p = choose|p: int| 0 <= p < before.len() && before[p] == step;
                    assert(all[p] == step);
                } else {
                    assert(own[k] == step);
                    assert(all[before.len() + k] == step);
                }
            }
        } else {
            assert(all == before);
            assert forall|p: int| 0 <= p < all.len() implies is_check_of(
                #[trigger] all[p],
                fields,
                deferred,
                n,
            ) by {
                assert(is_check_of(before[p], fields, deferred, n - 1));
            }
        }
    }
}

/// The three phases follow each other. The first `fields.len()` steps are
/// the deserialization steps, one for each field in declaration order; then
/// come the checks of the fields that were held back; then the checks of
/// all other fields.
pub proof fn phases_are_ordered(fields: Seq<AccountFieldView>, p: int)
    requires
        0 <= p < routine_steps(fields).len(),
    ensures
        p < associated_phase_start(fields) ==> routine_steps(fields)[p] == deserialize_step(
            fields,
            p,
        ) && !(routine_steps(fields)[p] is Check),
        associated_phase_start(fields) <= p < ordinary_phase_start(fields) ==> is_check_of(
            routine_steps(fields)[p],
            fields,
            true,
            fields.len() as int,
        ),
        ordinary_phase_start(fields) <= p ==> is_check_of(
            routine_steps(fields)[p],
            fields,
            false,
            fields.len() as int,
        ),
{
    let n = fields.len() as int;
    check_steps_shape(fields, true, n);
    check_steps_shape(fields, false, n);
    let second = check_steps(fields, true, n);
    let third = check_steps(fields, false, n);
    if p < n {
        assert(routine_steps(fields)[p] == deserialize_steps(fields)[p]);
    } else if p < n + second.len() {
        assert(routine_steps(fields)[p] == second[p - n]);
    } else {
        assert(routine_steps(fields)[p] == third[p - n - second.len()]);
    }
}

/// Every field takes its records before any constraint is checked: the
/// field's deserialization step stands at the field's own index, and every
/// check stands after the deserialization steps of all fields.
pub proof fn deserialization_precedes_every_check(
    fields: Seq<AccountFieldView>,
    field: int,
    check: int,
)
    requires
        0 <= field < fields.len(),
        0 <= check < routine_steps(fields).len(),
        routine_steps(fields)[check] is Check,
    ensures
        field < check,
        routine_steps(fields)[field] == deserialize_step(fields, field),
        routine_steps(fields)[field].field() == field,
{
    phases_are_ordered(fields, check);
    phases_are_ordered(fields, field);
}

/// Within a phase the checks keep the order of declaration: an earlier
/// field's checks come first, and the checks of one field come in the order
/// of its constraint list.
pub proof fn checks_keep_declaration_order(fields: Seq<AccountFieldView>, p: int, q: int)
    requires
        associated_phase_start(fields) <= p < q < routine_steps(fields).len(),
        q < ordinary_phase_start(fields) || ordinary_phase_start(fields) <= p,
    ensures
        checked_before(routine_steps(fields)[p], routine_steps(fields)[q]),
{
    let n = fields.len() as int;
    check_steps_shape(fields, true, n);
    check_steps_shape(fields, false, n);
    let second = check_steps(fields, true, n);
    let third = check_steps(fields, false, n);
    if q < n + second.len() {
        assert(routine_steps(fields)[p] == second[p - n]);
        assert(routine_steps(fields)[q] == second[q - n]);
    } else {
        assert(routine_steps(fields)[p] == third[p - n - second.len()]);
        assert(routine_steps(fields)[q] == third[q - n - second.len()]);
    }
}

/// Every constraint of every field is checked, and checked once: its check
/// stands at exactly one place of the routine.
pub proof fn every_constraint_is_checked_once(
    fields: Seq<AccountFieldView>,
    field: int,
    constraint: int,
) -> (place: int)
    requires
        0 <= field < fields.len(),
        0 <= constraint < fields[field].constraints().len(),
    ensures
        0 <= place < routine_steps(fields).len(),
        routine_steps(fields)[place] == check_of(field, constraint),
        forall|other: int|
            0 <= other < routine_steps(fields).len() && other != place
                ==> #[trigger] routine_steps(fields)[other] != check_of(field, constraint),
{
    let n = fields.len() as int;
    let step = check_of(field, constraint);
    let deferred = fields[field].is_associated_init();
    check_steps_shape(fields, true, n);
    check_steps_shape(fields, false, n);
    let second = check_steps(fields, true, n);
    let third = check_steps(fields, false, n);
    let phase = check_steps(fields, deferred, n);
    assert(phase.contains(step));
    let offset = choose|p: int| 0 <= p < phase.len() && phase[p] == step;
    let place = if deferred {
        n + offset
    } else {
        n + second.len() + offset
    };
    assert(routine_steps(fields)[place] == step);
    assert forall|other: int|
        0 <= other < routine_steps(fields).len() && other != place implies #[trigger] routine_steps(
        fields,
    )[other] != step by {
        phases_are_ordered(fields, other);
        if other >= n && (other < n + second.len()) == deferred {
            if other < place {
                checks_keep_declaration_order(fields, other, place);
            } else {
                checks_keep_declaration_order(fields, place, other);
            }
        }
    }
    place
}

/// A field whose account an associated constraint creates only has its
/// record held back in the first phase, and all its constraints are checked
/// before any constraint of a field that was not held back.
pub proof fn held_back_fields_are_checked_first(
    fields: Seq<AccountFieldView>,
    held_back: int,
    p: int,
    q: int,
)
    requires
        0 <= held_back < fields.len(),
        fields[held_back].is_associated_init(),
        0 <= p < routine_steps(fields).len(),
        0 <= q < routine_steps(fields).len(),
        routine_steps(fields)[p] matches StepView::Check { field, .. } && field == held_back,
        routine_steps(fields)[q] matches StepView::Check { field, .. } && 0 <= field
            < fields.len() && !fields[field].is_associated_init(),
    ensures
        routine_steps(fields)[held_back] == (StepView::Defer { field: held_back }),
        held_back < p < ordinary_phase_start(fields) <= q,
{
    phases_are_ordered(fields, held_back);
    phases_are_ordered(fields, p);
    phases_are_ordered(fields, q);
}

/// The constraints on a nested group as a whole are checked in the third
/// phase: after the group's own routine has run in the first, and after the
/// checks of every field that was held back.
pub proof fn group_constraints_are_checked_in_the_last_phase(
    fields: Seq<AccountFieldView>,
    group: int,
    p: int,
)
    requires
        0 <= group < fields.len(),
        fields[group] is CompositeField,
        0 <= p < routine_steps(fields).len(),
        routine_steps(fields)[p] matches StepView::Check { field, .. } && field == group,
    ensures
        routine_steps(fields)[group] == (StepView::Delegate { field: group }),
        group < ordinary_phase_start(fields) <= p,
{
    phases_are_ordered(fields, group);
    phases_are_ordered(fields, p);
}

/// Records are only taken in the first phase: a single account takes
/// exactly one, how many a nested group takes is for its own routine to
/// decide, and no check takes any.
pub proof fn records_are_taken_in_the_first_phase(fields: Seq<AccountFieldView>, p: int)
    requires
        0 <= p < routine_steps(fields).len(),
    ensures
        p < fields.len() && fields[p] is Field ==> routine_steps(fields)[p].records_taken()
            == Some(1nat),
        p < fields.len() && fields[p] is CompositeField ==> routine_steps(
            fields,
        )[p].records_taken() is None,
        fields.len() <= p ==> routine_steps(fields)[p].records_taken() == Some(0nat),
{
    phases_are_ordered(fields, p);
}

/// Records are consumed in declaration order: as long as only single
/// accounts come before it, field `i` finds the cursor `i` records on, and
/// takes the next one itself.
pub proof fn each_account_takes_the_next_record(fields: Seq<AccountFieldView>, i: int)
    requires
        0 <= i <= fields.len(),
        forall|j: int| 0 <= j < i ==> (#[trigger] fields[j]) is Field,
    ensures
        records_taken_before(routine_steps(fields), i) == Some(i as nat),
    decreases i,
{
    if i > 0 {
        each_account_takes_the_next_record(fields, i - 1);
        assert(fields[i - 1] is Field);
        records_are_taken_in_the_first_phase(fields, i - 1);
    }
}

/// A structure of single accounts takes exactly one record for each field,
/// however far the routine has come after the first phase.
pub proof fn single_accounts_take_one_record_each(fields: Seq<AccountFieldView>, p: int)
    requires
        forall|j: int| 0 <= j < fields.len() ==> (#[trigger] fields[j]) is Field,
        fields.len() <= p <= routine_steps(fields).len(),
    ensures
        records_taken_before(routine_steps(fields), p) == Some(fields.len()),
    decreases p,
{
    if p == fields.len() {
        each_account_takes_the_next_record(fields, p);
    } else {
        single_accounts_take_one_record_each(fields, p - 1);
        records_are_taken_in_the_first_phase(fields, p - 1);
    }
}

/// On an empty cursor no single account can take its record, held back or
/// not: its step fails, where a check or a nested group's routine may still
/// run.
pub proof fn an_empty_cursor_fails_every_single_account(fields: Seq<AccountFieldView>, p: int)
    requires
        0 <= p < routine_steps(fields).len(),
    ensures
        p < fields.len() && fields[p] is Field <==> !routine_steps(fields)[p].can_take_from(0),
{
    records_are_taken_in_the_first_phase(fields, p);
}

} // verus!
