//! The routine that turns raw account records into a validated structure.
//!
//! The routine runs in three phases, and the order never changes:
//!
//! 1. Every field takes its records off the cursor, in declaration order. A
//!    nested group is handed the cursor; a field with an associated
//!    constraint that creates its account only has its record held back; any
//!    other field is deserialized.
//! 2. The fields held back in the first phase have all their constraints
//!    checked, in declaration order. This is where their accounts are
//!    created.
//! 3. All other fields have their constraints checked, in declaration order;
//!    for a nested group these are the constraints on the group as a whole.
//!
//! After the last check the structure is assembled from its fields.

use crate::accounts::{AccountField, AccountFieldView, AccountsStruct, AccountsStructView};
use crate::constraint::Constraint;
use crate::routine::{Routine, RoutineView, Step, StepView};
use vstd::prelude::*;

verus! {

/// The step by which field `i` takes its records off the cursor.
pub open spec fn deserialize_step(fields: Seq<AccountFieldView>, i: int) -> StepView {
    match fields[i] {
        AccountFieldView::CompositeField(_) => StepView::Delegate { field: i },
        AccountFieldView::Field(field) => if fields[i].is_associated_init() {
            StepView::Defer { field: i }
        } else {
            StepView::Deserialize { field: i, init: field.is_init }
        },
    }
}

/// The first phase: one step for each field, in declaration order.
pub open spec fn deserialize_steps(fields: Seq<AccountFieldView>) -> Seq<StepView> {
    Seq::new(fields.len(), |i: int| deserialize_step(fields, i))
}

/// The checks of all constraints of field `i`, in the order of its list.
pub open spec fn field_checks(fields: Seq<AccountFieldView>, i: int) -> Seq<StepView> {
    Seq::new(
        fields[i].constraints().len(),
        |k: int| StepView::Check { field: i, constraint: k },
    )
}

/// The checks of the first `n` fields, in declaration order, for the fields
/// that were held back in the first phase (`deferred`) or for all others.
pub open spec fn check_steps(fields: Seq<AccountFieldView>, deferred: bool, n: int) -> Seq<StepView>
    decreases n,
{
    if n <= 0 {
        Seq::empty()
    } else if fields[n - 1].is_associated_init() == deferred {
        check_steps(fields, deferred, n - 1) + field_checks(fields, n - 1)
    } else {
        check_steps(fields, deferred, n - 1)
    }
}

/// The steps of the routine: the three phases, one after the other.
pub open spec fn routine_steps(fields: Seq<AccountFieldView>) -> Seq<StepView> {
    deserialize_steps(fields) + check_steps(fields, true, fields.len() as int) + check_steps(
        fields,
        false,
        fields.len() as int,
    )
}

/// The routine of an accounts structure.
pub open spec fn routine_of(accs: AccountsStructView) -> RoutineView {
    RoutineView {
        name: accs.ident,
        steps: routine_steps(accs.fields),
        assembled: Seq::new(accs.fields.len(), |i: int| accs.fields[i].ident()),
    }
}

/// Whether a field is a single account with an associated constraint that
/// creates it.
pub fn is_associated_init(af: &AccountField) -> (yes: bool)
    ensures
        yes == af.deep_view().is_associated_init(),
{
    match af {
        AccountField::CompositeField(_) => false,
        AccountField::Field(field) => {
            let mut k: usize = 0;
            while k < field.constraints.len()
                invariant
                    k <= field.constraints.len(),
                    af.deep_view() == AccountFieldView::Field(field.deep_view()),
                    forall|j: int|
                        0 <= j < k ==> !(#[trigger] field.constraints.deep_view()[
                            j
                        ]).is_associated_init(),
                decreases field.constraints.len() - k,
            {
                let found = match &field.constraints[k] {
                    Constraint::Associated { is_init, .. } => *is_init,
                    _ => false,
                };
                if found {
                    proof {
                        let view = field.deep_view();
                        assert(view.constraints[k as int].is_associated_init());
                        assert(0 <= k < view.constraints.len());
                    }
                    return true;
                }
                k += 1;
            }
            false
        },
    }
}

/// Adds the checks of one phase to the steps.
fn push_checks(steps: &mut Vec<Step>, fields: &Vec<AccountField>, deferred: bool)
    ensures
        final(steps).deep_view() == old(steps).deep_view() + check_steps(
            fields.deep_view(),
            deferred,
            fields.len() as int,
        ),
{
    let ghost base = steps.deep_view();
    let mut i: usize = 0;
    assert(steps.deep_view() =~= base + check_steps(fields.deep_view(), deferred, 0));
    while i < fields.len()
        invariant
            i <= fields.len(),
            steps.deep_view() == base + check_steps(fields.deep_view(), deferred, i as int),
        decreases fields.len() - i,
    {
        if is_associated_init(&fields[i]) == deferred {
            let constraints = fields[i].constraints();
            let ghost before = steps.deep_view();
            let mut k: usize = 0;
            assert(steps.deep_view() =~= before + field_checks(fields.deep_view(), i as int).take(
                0,
            ));
            while k < constraints.len()
                invariant
                    i < fields.len(),
                    k <= constraints.len(),
                    constraints.deep_view() == fields.deep_view()[i as int].constraints(),
                    steps.deep_view() == before + field_checks(fields.deep_view(), i as int).take(
                        k as int,
                    ),
                decreases constraints.len() - k,
            {
                let ghost so_far = steps.deep_view();
                steps.push(Step::Check { field: i, constraint: k });
                proof {
                    let checks = field_checks(fields.deep_view(), i as int);
                    assert(steps.deep_view() =~= so_far.push(checks[k as int]));
                    assert(checks.take(k + 1) =~= checks.take(k as int).push(checks[k as int]));
                    assert(steps.deep_view() =~= before + checks.take(k + 1));
                }
                k += 1;
            }
            proof {
                let checks = field_checks(fields.deep_view(), i as int);
                assert(checks.take(k as int) =~= checks);
                assert(steps.deep_view() =~= base + check_steps(
                    fields.deep_view(),
                    deferred,
                    i + 1,
                ));
            }
        }
        i += 1;
    }
}

/// Lays out the validation routine of an accounts structure.
///
/// The routine has one deserialization step for each field, then the checks
/// of the fields whose accounts an associated constraint creates, then the
/// checks of all other fields; each group in declaration order, and the
/// checks of one field in the order of its constraint list.
pub fn generate(accs: &AccountsStruct) -> (routine: Routine)
    ensures
        routine.deep_view() == routine_of(accs.deep_view()),
{
    let mut steps: Vec<Step> = Vec::new();
    let mut assembled: Vec<String> = Vec::new();
    let mut i: usize = 0;
    while i < accs.fields.len()
        invariant
            i <= accs.fields.len(),
            steps.len() == i,
            assembled.len() == i,
            forall|j: int|
                0 <= j < i ==> (#[trigger] steps@[j]).deep_view() == deserialize_step(
                    accs.fields.deep_view(),
                    j,
                ),
            forall|j: int|
                0 <= j < i ==> (#[trigger] assembled@[j])@ == accs.fields.deep_view()[j].ident(),
        decreases accs.fields.len() - i,
    {
        let step = match &accs.fields[i] {
            AccountField::CompositeField(_) => Step::Delegate { field: i },
            AccountField::Field(field) => {
                if is_associated_init(&accs.fields[i]) {
                    Step::Defer { field: i }
                } else {
                    Step::Deserialize { field: i, init: field.is_init }
                }
            },
        };
        steps.push(step);
        assembled.push(accs.fields[i].ident().clone());
        i += 1;
    }
    assert(steps.deep_view() =~= deserialize_steps(accs.fields.deep_view()));
    push_checks(&mut steps, &accs.fields, true);
    push_checks(&mut steps, &accs.fields, false);
    let routine = Routine { name: accs.ident.clone(), steps, assembled };
    assert(routine.deep_view().assembled =~= routine_of(accs.deep_view()).assembled);
    routine
}

} // verus!
