use anchor_syn::accounts::{AccountField, AccountsStruct, CompositeField, Field, Ty};
use anchor_syn::codegen::accounts::try_accounts::{generate, is_associated_init};
use anchor_syn::constraint::{Constraint, ConstraintRentExempt};
use anchor_syn::parser::accounts::parse;
use anchor_syn::routine::{Progress, Routine, Step};
use anchor_syn::syntax::{
    Attribute, Fields, GenericArgument, ItemStruct, Path, PathArguments, PathSegment,
    StructField, Type,
};
use proc_macro2::TokenStream;

fn path(name: &str, arguments: PathArguments) -> Path {
    Path {
        leading_colon: false,
        segments: vec![PathSegment { ident: name.to_string(), arguments }],
    }
}

fn program_account(inner: &str) -> Type {
    Type::Path(path(
        "ProgramAccount",
        PathArguments::AngleBracketed(vec![
            GenericArgument::Lifetime("info".to_string()),
            GenericArgument::TypePath(vec![inner.to_string()]),
        ]),
    ))
}

fn account_info() -> Type {
    Type::Path(path(
        "AccountInfo",
        PathArguments::AngleBracketed(vec![GenericArgument::Lifetime("info".to_string())]),
    ))
}

fn nested(name: &str) -> Type {
    Type::Path(path(name, PathArguments::Absent))
}

/// A field with the attribute `#[account<args>]`, or with none where `args`
/// is empty.
fn field(name: &str, ty: Type, args: &str) -> StructField {
    let attrs = if args.is_empty() {
        vec![]
    } else {
        vec![Attribute {
            path: path("account", PathArguments::Absent),
            tokens: args.parse::<TokenStream>().unwrap(),
        }]
    };
    StructField { attrs, ident: name.to_string(), ty }
}

fn accounts(fields: Vec<StructField>) -> AccountsStruct {
    parse(&ItemStruct {
        ident: "Instruction".to_string(),
        generics: vec![],
        fields: Fields::Named(fields),
    })
    .unwrap()
}

fn check(field: usize, constraint: usize) -> Step {
    Step::Check { field, constraint }
}

fn plain(field: usize) -> Step {
    Step::Deserialize { field, init: false }
}

/// Runs a routine, each step succeeding unless it is `failing`, and returns
/// the steps performed and where the run ended.
fn run(routine: &Routine, failing: Option<usize>) -> (Vec<Step>, Progress) {
    let mut performed = Vec::new();
    let mut progress = routine.begin();
    while let Progress::Perform(at) = progress {
        performed.push(routine.steps[at]);
        progress = routine.advance(progress, Some(at) != failing);
    }
    (performed, progress)
}

#[test]
fn belongs_to_target_is_deserialized_before_the_check() {
    let accs = accounts(vec![
        field("a", account_info(), ""),
        field("b", program_account("Data"), "(belongs_to = a)"),
    ]);
    let routine = generate(&accs);
    assert_eq!(routine.steps, vec![plain(0), plain(1), check(1, 0)]);
    let deserialize_a = routine.steps.iter().position(|s| *s == plain(0)).unwrap();
    let check_b = routine.steps.iter().position(|s| *s == check(1, 0)).unwrap();
    assert!(deserialize_a < check_b);
    match &accs.fields[1] {
        AccountField::Field(b) => assert!(
            matches!(&b.constraints[0], Constraint::BelongsTo { join_target } if join_target == "a")
        ),
        other => panic!("not a single account: {:?}", other),
    }
}

#[test]
fn earlier_fields_are_validated_before_later_ones() {
    let accs = accounts(vec![
        field("a", account_info(), "(signer, owner = program)"),
        field("b", program_account("Data"), "(belongs_to = a)"),
    ]);
    let routine = generate(&accs);
    assert_eq!(
        routine.steps,
        vec![plain(0), plain(1), check(0, 0), check(0, 1), check(1, 0)]
    );
}

#[test]
fn associated_init_field_is_held_back_and_created_first() {
    let accs = accounts(vec![
        field("a", account_info(), "(signer)"),
        field(
            "c",
            program_account("Data"),
            "(associated = d, init, payer = e, space = \"80\", with = f)",
        ),
        field("d", account_info(), "(mut)"),
        field("e", account_info(), "(signer, mut)"),
        field("f", account_info(), ""),
    ]);
    let c = match &accs.fields[1] {
        AccountField::Field(c) => c,
        other => panic!("not a single account: {:?}", other),
    };
    assert!(!c.is_init);
    assert!(c.is_mut);
    assert_eq!(c.payer.as_deref(), Some("e"));
    assert_eq!(c.space.as_ref().unwrap().to_string(), "80");
    assert_eq!(c.associated_seeds, vec!["f"]);
    assert!(matches!(
        &c.constraints[0],
        Constraint::Associated { associated_target, is_init: true } if associated_target == "d"
    ));
    assert!(matches!(c.constraints[1], Constraint::RentExempt(ConstraintRentExempt::Enforce)));
    assert!(is_associated_init(&accs.fields[1]));

    let routine = generate(&accs);
    assert_eq!(
        routine.steps,
        vec![
            plain(0),
            Step::Defer { field: 1 },
            plain(2),
            plain(3),
            plain(4),
            check(1, 0),
            check(1, 1),
            check(0, 0),
            check(3, 0),
        ]
    );
    assert_eq!(routine.steps[1].records_taken(), Some(1));
}

#[test]
fn address_mismatch_ends_the_run_before_the_last_phase() {
    let accs = accounts(vec![
        field("a", account_info(), "(signer)"),
        field("c", program_account("Data"), "(associated = d, init, payer = e, space = \"80\")"),
        field("d", account_info(), ""),
        field("e", account_info(), "(signer)"),
    ]);
    let routine = generate(&accs);
    let associated = routine.steps.iter().position(|s| *s == check(1, 0)).unwrap();
    let (performed, end) = run(&routine, Some(associated));
    assert_eq!(end, Progress::Failed(associated));
    assert_eq!(
        performed,
        vec![plain(0), Step::Defer { field: 1 }, plain(2), plain(3), check(1, 0)]
    );
    assert!(!performed.contains(&check(0, 0)));
    assert!(!performed.contains(&check(3, 0)));
    assert!(!performed.contains(&check(1, 1)));
}

#[test]
fn group_constraints_are_checked_in_the_last_phase() {
    let accs = accounts(vec![
        field("a", account_info(), "(signer)"),
        field("inner", nested("Nested"), "(\"inner.x.key == a.key\")"),
        field("c", program_account("Data"), "(associated = a, init)"),
        field("b", account_info(), "(mut, owner = program)"),
    ]);
    assert!(matches!(&accs.fields[1], AccountField::CompositeField(g) if g.symbol == "Nested"));
    let routine = generate(&accs);
    assert_eq!(
        routine.steps,
        vec![
            plain(0),
            Step::Delegate { field: 1 },
            Step::Defer { field: 2 },
            plain(3),
            check(2, 0),
            check(2, 1),
            check(0, 0),
            check(1, 0),
            check(3, 0),
        ]
    );
    let delegated = routine.steps.iter().position(|s| *s == Step::Delegate { field: 1 }).unwrap();
    let own = routine.steps.iter().position(|s| *s == check(1, 0)).unwrap();
    let before = routine.steps.iter().position(|s| *s == check(0, 0)).unwrap();
    let after = routine.steps.iter().position(|s| *s == check(3, 0)).unwrap();
    assert!(delegated < before);
    assert!(before < own);
    assert!(own < after);
    assert_eq!(routine.steps[delegated].records_taken(), None);
}

#[test]
fn init_fields_are_deserialized_as_uninitialized() {
    let accs = accounts(vec![
        field("a", program_account("Data"), "(init)"),
        field("b", program_account("Data"), "(mut)"),
    ]);
    let routine = generate(&accs);
    assert_eq!(
        routine.steps,
        vec![Step::Deserialize { field: 0, init: true }, plain(1), check(0, 0)]
    );
}

#[test]
fn associated_without_init_is_an_ordinary_field() {
    let accs = accounts(vec![field("c", program_account("Data"), "(associated = d)")]);
    assert!(!is_associated_init(&accs.fields[0]));
    assert_eq!(generate(&accs).steps, vec![plain(0), check(0, 0)]);
}

#[test]
fn a_nested_group_is_never_held_back() {
    let group = AccountField::CompositeField(CompositeField {
        ident: "inner".to_string(),
        symbol: "Nested".to_string(),
        constraints: vec![Constraint::Associated {
            associated_target: "a".to_string(),
            is_init: true,
        }],
    });
    assert!(!is_associated_init(&group));
    let accs = AccountsStruct::new("S".to_string(), vec![], vec![group]);
    assert_eq!(generate(&accs).steps, vec![Step::Delegate { field: 0 }, check(0, 0)]);
}

#[test]
fn any_creating_associated_constraint_holds_the_field_back() {
    let constraints = vec![
        Constraint::Signer,
        Constraint::Associated { associated_target: "a".to_string(), is_init: false },
        Constraint::Associated { associated_target: "b".to_string(), is_init: true },
    ];
    let held_back = AccountField::Field(Field {
        ident: "c".to_string(),
        ty: Ty::AccountInfo,
        constraints,
        is_mut: true,
        is_signer: true,
        is_init: false,
        payer: None,
        space: None,
        associated_seeds: vec![],
    });
    assert!(is_associated_init(&held_back));
    let no_constraints = AccountField::Field(Field {
        ident: "c".to_string(),
        ty: Ty::AccountInfo,
        constraints: vec![],
        is_mut: false,
        is_signer: false,
        is_init: false,
        payer: None,
        space: None,
        associated_seeds: vec![],
    });
    assert!(!is_associated_init(&no_constraints));
}

#[test]
fn the_result_is_assembled_in_declaration_order() {
    let accs = accounts(vec![
        field("z", account_info(), ""),
        field("inner", nested("Nested"), ""),
        field("a", program_account("Data"), "(associated = z, init)"),
    ]);
    let routine = generate(&accs);
    assert_eq!(routine.name, "Instruction");
    assert_eq!(routine.assembled, vec!["z", "inner", "a"]);
}

#[test]
fn an_empty_structure_has_an_empty_routine() {
    let routine = generate(&accounts(vec![]));
    assert!(routine.steps.is_empty());
    assert!(routine.assembled.is_empty());
    assert_eq!(routine.begin(), Progress::Assembled);
    assert_eq!(run(&routine, None), (vec![], Progress::Assembled));
}

#[test]
fn every_constraint_is_checked_exactly_once() {
    let accs = accounts(vec![
        field("a", account_info(), "(signer, owner = p, \"x\")"),
        field("b", program_account("Data"), "(associated = a, init, has_one = a)"),
        field("inner", nested("Nested"), "(\"y\", \"z\")"),
        field("c", program_account("Data"), "(init)"),
        field("d", program_account("Data"), "(init, associated = c, with = a)"),
    ]);
    let routine = generate(&accs);
    let mut expected = 0;
    for (i, f) in accs.fields.iter().enumerate() {
        let constraints = match f {
            AccountField::Field(f) => &f.constraints,
            AccountField::CompositeField(f) => &f.constraints,
        };
        for k in 0..constraints.len() {
            expected += 1;
            assert_eq!(routine.steps.iter().filter(|s| **s == check(i, k)).count(), 1);
        }
    }
    assert_eq!(routine.steps.len(), accs.fields.len() + expected);
    let held_back: Vec<usize> = routine.steps[accs.fields.len()..]
        .iter()
        .map(|s| match s {
            Step::Check { field, .. } => *field,
            other => panic!("not a check: {:?}", other),
        })
        .collect();
    assert_eq!(held_back, vec![1, 1, 1, 4, 4, 0, 0, 0, 2, 2, 3]);
}

#[test]
fn a_run_performs_every_step_in_order() {
    let accs = accounts(vec![
        field("a", account_info(), "(signer)"),
        field("b", program_account("Data"), "(belongs_to = a)"),
    ]);
    let routine = generate(&accs);
    let (performed, end) = run(&routine, None);
    assert_eq!(performed, routine.steps);
    assert_eq!(end, Progress::Assembled);
}

#[test]
fn the_first_failure_ends_a_run() {
    let accs = accounts(vec![
        field("a", account_info(), "(signer)"),
        field("b", program_account("Data"), "(belongs_to = a)"),
    ]);
    let routine = generate(&accs);
    for failing in 0..routine.steps.len() {
        let (performed, end) = run(&routine, Some(failing));
        assert_eq!(end, Progress::Failed(failing));
        assert_eq!(performed, routine.steps[..=failing].to_vec());
    }
}

#[test]
fn a_run_that_has_ended_stays_ended() {
    let routine = generate(&accounts(vec![field("a", account_info(), "(signer)")]));
    assert_eq!(routine.begin(), Progress::Perform(0));
    assert_eq!(routine.advance(Progress::Perform(0), true), Progress::Perform(1));
    assert_eq!(routine.advance(Progress::Perform(1), true), Progress::Assembled);
    assert_eq!(routine.advance(Progress::Perform(1), false), Progress::Failed(1));
    assert_eq!(routine.advance(Progress::Assembled, true), Progress::Assembled);
    assert_eq!(routine.advance(Progress::Assembled, false), Progress::Assembled);
    assert_eq!(routine.advance(Progress::Failed(0), true), Progress::Failed(0));
    assert_eq!(routine.advance(Progress::Failed(0), false), Progress::Failed(0));
    assert_eq!(routine.advance(Progress::Perform(7), true), Progress::Assembled);
}

#[test]
fn a_step_without_its_record_cannot_run() {
    assert!(!Step::Defer { field: 0 }.can_take_from(0));
    assert!(!Step::Deserialize { field: 0, init: false }.can_take_from(0));
    assert!(!Step::Deserialize { field: 0, init: true }.can_take_from(0));
    assert!(Step::Defer { field: 0 }.can_take_from(1));
    assert!(Step::Deserialize { field: 0, init: false }.can_take_from(1));
    assert!(Step::Deserialize { field: 0, init: false }.can_take_from(7));
    assert!(Step::Check { field: 0, constraint: 0 }.can_take_from(0));
    assert!(Step::Delegate { field: 0 }.can_take_from(0));
}

#[test]
fn a_short_cursor_fails_the_step_that_lacks_a_record() {
    let accs = accounts(vec![
        field("a", account_info(), "(signer)"),
        field("c", program_account("Data"), "(associated = a, init)"),
    ]);
    let routine = generate(&accs);
    let mut remaining = 1;
    let mut performed = Vec::new();
    let mut progress = routine.begin();
    while let Progress::Perform(at) = progress {
        let step = routine.steps[at];
        let succeeded = step.can_take_from(remaining);
        if succeeded {
            performed.push(step);
            remaining -= step.records_taken().unwrap();
        }
        progress = routine.advance(progress, succeeded);
    }
    assert_eq!(progress, Progress::Failed(1));
    assert_eq!(performed, vec![plain(0)]);
    assert_eq!(routine.steps[1], Step::Defer { field: 1 });
}

#[test]
fn only_the_first_phase_takes_records() {
    assert_eq!(Step::Delegate { field: 0 }.records_taken(), None);
    assert_eq!(Step::Defer { field: 0 }.records_taken(), Some(1));
    assert_eq!(Step::Deserialize { field: 0, init: false }.records_taken(), Some(1));
    assert_eq!(Step::Deserialize { field: 0, init: true }.records_taken(), Some(1));
    assert_eq!(Step::Check { field: 0, constraint: 0 }.records_taken(), Some(0));
}
