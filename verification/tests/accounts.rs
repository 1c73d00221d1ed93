use anchor_syn::accounts::{AccountField, SysvarTy, Ty};
use anchor_syn::constraint::Constraint;
use anchor_syn::error::ParseError;
use anchor_syn::parser::accounts::{
    ident_string, is_account, is_field_primitive, parse, parse_account, parse_account_field,
    parse_constraints, parse_cpi_account, parse_cpi_state, parse_program_account,
    parse_program_account_zero_copy, parse_program_state, parse_sysvar, parse_ty, sysvar,
    wrapper_kind, WrapperKind,
};
use anchor_syn::syntax::{
    Attribute, Fields, GenericArgument, GenericParam, ItemStruct, Path, PathArguments,
    PathSegment, StructField, Type,
};
use proc_macro2::TokenStream;

fn segment(name: &str, arguments: PathArguments) -> PathSegment {
    PathSegment { ident: name.to_string(), arguments }
}

fn bare(name: &str) -> Path {
    Path { leading_colon: false, segments: vec![segment(name, PathArguments::Absent)] }
}

/// The path `name<'info, inner>`.
fn wrapper(name: &str, inner: &str) -> Path {
    with_arguments(
        name,
        vec![
            GenericArgument::Lifetime("info".to_string()),
            GenericArgument::TypePath(vec![inner.to_string()]),
        ],
    )
}

fn with_arguments(name: &str, arguments: Vec<GenericArgument>) -> Path {
    Path {
        leading_colon: false,
        segments: vec![segment(name, PathArguments::AngleBracketed(arguments))],
    }
}

/// The path `AccountInfo<'info>`.
fn account_info() -> Path {
    with_arguments("AccountInfo", vec![GenericArgument::Lifetime("info".to_string())])
}

fn attribute(path: Path, tokens: &str) -> Attribute {
    Attribute { path, tokens: tokens.parse::<TokenStream>().unwrap() }
}

fn account(args: &str) -> Attribute {
    attribute(bare("account"), args)
}

fn field(name: &str, path: Path, attrs: Vec<Attribute>) -> StructField {
    StructField { attrs, ident: name.to_string(), ty: Type::Path(path) }
}

fn structure(fields: Vec<StructField>) -> ItemStruct {
    ItemStruct {
        ident: "Transfer".to_string(),
        generics: vec![GenericParam::Lifetime("info".to_string())],
        fields: Fields::Named(fields),
    }
}

fn name_of(field: &AccountField) -> &str {
    match field {
        AccountField::Field(field) => &field.ident,
        AccountField::CompositeField(field) => &field.ident,
    }
}

#[test]
fn account_attribute_is_the_bare_identifier() {
    assert!(is_account(&account("(mut)")));
    assert!(is_account(&account("")));
    assert!(!is_account(&attribute(bare("doc"), "= \"text\"")));
    assert!(!is_account(&attribute(bare("accounts"), "(mut)")));
    assert!(!is_account(&attribute(
        Path { leading_colon: true, segments: vec![segment("account", PathArguments::Absent)] },
        "(mut)"
    )));
    assert!(!is_account(&attribute(
        Path {
            leading_colon: false,
            segments: vec![
                segment("anchor", PathArguments::Absent),
                segment("account", PathArguments::Absent)
            ],
        },
        "(mut)"
    )));
    assert!(!is_account(&attribute(with_arguments("account", vec![]), "(mut)")));
    assert!(!is_account(&attribute(
        Path {
            leading_colon: false,
            segments: vec![segment("account", PathArguments::Parenthesized)]
        },
        "(mut)"
    )));
    assert!(!is_account(&attribute(
        Path { leading_colon: false, segments: vec![] },
        "(mut)"
    )));
}

#[test]
fn field_without_account_attribute_has_no_constraints() {
    let group = parse_constraints(&field("a", account_info(), vec![])).unwrap();
    assert!(group.constraints.is_empty());
    assert!(!group.is_mut && !group.is_signer && !group.is_init);
    assert!(group.payer.is_none() && group.space.is_none());
    assert!(group.associated_seeds.is_empty());
    let documented = field("a", account_info(), vec![attribute(bare("doc"), "= \"frobnicate\"")]);
    assert!(parse_constraints(&documented).unwrap().constraints.is_empty());
}

#[test]
fn the_account_attribute_is_found_among_others() {
    let f = field(
        "a",
        account_info(),
        vec![
            attribute(bare("doc"), "= \"first\""),
            account("(mut, signer)"),
            attribute(bare("cfg"), "(test)"),
        ],
    );
    let group = parse_constraints(&f).unwrap();
    assert!(group.is_mut);
    assert!(group.is_signer);
    assert_eq!(group.constraints.len(), 1);
}

#[test]
fn two_account_attributes_are_rejected() {
    let f = field("a", account_info(), vec![account("(mut)"), account("(signer)")]);
    assert_eq!(parse_constraints(&f).unwrap_err(), ParseError::MultipleAccountAttributes);
    assert_eq!(parse_account_field(&f).unwrap_err(), ParseError::MultipleAccountAttributes);
    assert_eq!(parse(&structure(vec![f])).unwrap_err(), ParseError::MultipleAccountAttributes);
    let three = field(
        "a",
        account_info(),
        vec![account("(mut)"), attribute(bare("doc"), ""), account("(mut)"), account("(mut)")],
    );
    assert_eq!(parse_constraints(&three).unwrap_err(), ParseError::MultipleAccountAttributes);
}

#[test]
fn two_account_attributes_differ_from_invalid_syntax() {
    let malformed = field("a", account_info(), vec![account("(frobnicate)")]);
    assert_eq!(parse_constraints(&malformed).unwrap_err(), ParseError::InvalidSyntax);
    let twice = field("a", account_info(), vec![account("(frobnicate)"), account("(mut)")]);
    assert_eq!(parse_constraints(&twice).unwrap_err(), ParseError::MultipleAccountAttributes);
    assert_ne!(ParseError::MultipleAccountAttributes, ParseError::InvalidSyntax);
}

#[test]
fn a_malformed_attribute_fails_the_field() {
    let f = field("a", account_info(), vec![account("(rent_exempt = no)")]);
    assert_eq!(parse_account_field(&f).unwrap_err(), ParseError::InvalidRentExempt);
    let empty = field("a", account_info(), vec![account("")]);
    assert_eq!(parse_account_field(&empty).unwrap_err(), ParseError::MissingGroup);
}

#[test]
fn the_declared_name_is_the_single_segment() {
    assert_eq!(ident_string(&field("a", wrapper("ProgramAccount", "Data"), vec![])).unwrap(), "ProgramAccount");
    assert_eq!(ident_string(&field("a", bare("Nested"), vec![])).unwrap(), "Nested");
    let other = StructField { attrs: vec![], ident: "a".to_string(), ty: Type::Other };
    assert_eq!(ident_string(&other).unwrap_err(), ParseError::InvalidAccountSyntax);
    let qualified = Path {
        leading_colon: false,
        segments: vec![
            segment("anchor_lang", PathArguments::Absent),
            segment("ProgramAccount", PathArguments::Absent),
        ],
    };
    assert_eq!(
        ident_string(&field("a", qualified, vec![])).unwrap_err(),
        ParseError::QualifiedType
    );
    let empty = Path { leading_colon: false, segments: vec![] };
    assert_eq!(ident_string(&field("a", empty, vec![])).unwrap_err(), ParseError::QualifiedType);
}

#[test]
fn wrapper_kinds_are_a_closed_set() {
    assert_eq!(wrapper_kind(&"ProgramState".to_string()), Some(WrapperKind::ProgramState));
    assert_eq!(wrapper_kind(&"ProgramAccount".to_string()), Some(WrapperKind::ProgramAccount));
    assert_eq!(wrapper_kind(&"CpiAccount".to_string()), Some(WrapperKind::CpiAccount));
    assert_eq!(wrapper_kind(&"Sysvar".to_string()), Some(WrapperKind::Sysvar));
    assert_eq!(wrapper_kind(&"AccountInfo".to_string()), Some(WrapperKind::AccountInfo));
    assert_eq!(wrapper_kind(&"CpiState".to_string()), Some(WrapperKind::CpiState));
    assert_eq!(wrapper_kind(&"Loader".to_string()), Some(WrapperKind::Loader));
    assert_eq!(wrapper_kind(&"Nested".to_string()), None);
    assert_eq!(wrapper_kind(&"programaccount".to_string()), None);
    assert_eq!(wrapper_kind(&"".to_string()), None);
}

#[test]
fn primitive_fields_are_the_wrappers() {
    for name in
        ["ProgramState", "ProgramAccount", "CpiAccount", "Sysvar", "AccountInfo", "CpiState", "Loader"]
    {
        assert_eq!(is_field_primitive(&field("a", bare(name), vec![])), Ok(true));
    }
    assert_eq!(is_field_primitive(&field("a", bare("Nested"), vec![])), Ok(false));
    assert_eq!(is_field_primitive(&field("a", bare("Account"), vec![])), Ok(false));
    let other = StructField { attrs: vec![], ident: "a".to_string(), ty: Type::Other };
    assert_eq!(is_field_primitive(&other), Err(ParseError::InvalidAccountSyntax));
}

#[test]
fn the_data_type_is_the_second_argument() {
    assert_eq!(parse_account(&wrapper("ProgramAccount", "Data")).unwrap(), "Data");
    assert_eq!(parse_account(&wrapper("Anything", "Vault")).unwrap(), "Vault");
    let first_is_type = with_arguments(
        "ProgramAccount",
        vec![
            GenericArgument::TypePath(vec!["A".to_string()]),
            GenericArgument::TypePath(vec!["B".to_string()]),
        ],
    );
    assert_eq!(parse_account(&first_is_type).unwrap(), "B");
}

#[test]
fn malformed_wrapper_arguments_are_rejected() {
    let e = ParseError::InvalidProgramAccount;
    assert_eq!(parse_account(&bare("ProgramAccount")).unwrap_err(), e);
    assert_eq!(parse_account(&account_info()).unwrap_err(), e);
    assert_eq!(parse_account(&with_arguments("ProgramAccount", vec![])).unwrap_err(), e);
    let three = with_arguments(
        "ProgramAccount",
        vec![
            GenericArgument::Lifetime("info".to_string()),
            GenericArgument::TypePath(vec!["A".to_string()]),
            GenericArgument::TypePath(vec!["B".to_string()]),
        ],
    );
    assert_eq!(parse_account(&three).unwrap_err(), e);
    let not_a_path = with_arguments(
        "ProgramAccount",
        vec![GenericArgument::Lifetime("info".to_string()), GenericArgument::Other],
    );
    assert_eq!(parse_account(&not_a_path).unwrap_err(), e);
    let lifetime = with_arguments(
        "ProgramAccount",
        vec![
            GenericArgument::Lifetime("info".to_string()),
            GenericArgument::Lifetime("data".to_string()),
        ],
    );
    assert_eq!(parse_account(&lifetime).unwrap_err(), e);
    let qualified = with_arguments(
        "ProgramAccount",
        vec![
            GenericArgument::Lifetime("info".to_string()),
            GenericArgument::TypePath(vec!["state".to_string(), "Data".to_string()]),
        ],
    );
    assert_eq!(parse_account(&qualified).unwrap_err(), e);
    let no_segment = with_arguments(
        "ProgramAccount",
        vec![GenericArgument::Lifetime("info".to_string()), GenericArgument::TypePath(vec![])],
    );
    assert_eq!(parse_account(&no_segment).unwrap_err(), e);
    let parenthesized = Path {
        leading_colon: false,
        segments: vec![segment("ProgramAccount", PathArguments::Parenthesized)],
    };
    assert_eq!(parse_account(&parenthesized).unwrap_err(), e);
    assert_eq!(parse_account(&Path { leading_colon: false, segments: vec![] }).unwrap_err(), e);
}

#[test]
fn each_wrapper_reads_its_data_type() {
    assert_eq!(parse_program_state(&wrapper("ProgramState", "A")).unwrap().account_ident, "A");
    assert_eq!(parse_cpi_state(&wrapper("CpiState", "B")).unwrap().account_ident, "B");
    assert_eq!(parse_cpi_account(&wrapper("CpiAccount", "C")).unwrap().account_ident, "C");
    assert_eq!(parse_program_account(&wrapper("ProgramAccount", "D")).unwrap().account_ident, "D");
    assert_eq!(parse_program_account_zero_copy(&wrapper("Loader", "E")).unwrap().account_ident, "E");
    let e = ParseError::InvalidProgramAccount;
    assert_eq!(parse_program_state(&bare("ProgramState")).unwrap_err(), e);
    assert_eq!(parse_cpi_state(&bare("CpiState")).unwrap_err(), e);
    assert_eq!(parse_cpi_account(&bare("CpiAccount")).unwrap_err(), e);
    assert_eq!(parse_program_account(&bare("ProgramAccount")).unwrap_err(), e);
    assert_eq!(parse_program_account_zero_copy(&bare("Loader")).unwrap_err(), e);
}

#[test]
fn sysvars_are_a_closed_set() {
    let all = [
        ("Clock", SysvarTy::Clock),
        ("Rent", SysvarTy::Rent),
        ("EpochSchedule", SysvarTy::EpochSchedule),
        ("Fees", SysvarTy::Fees),
        ("RecentBlockhashes", SysvarTy::RecentBlockhashes),
        ("SlotHashes", SysvarTy::SlotHashes),
        ("SlotHistory", SysvarTy::SlotHistory),
        ("StakeHistory", SysvarTy::StakeHistory),
        ("Instructions", SysvarTy::Instructions),
        ("Rewards", SysvarTy::Rewards),
    ];
    for (name, expected) in all {
        assert_eq!(sysvar(&name.to_string()), Some(expected));
        assert_eq!(parse_sysvar(&wrapper("Sysvar", name)), Ok(expected));
    }
    assert_eq!(sysvar(&"Epoch".to_string()), None);
    assert_eq!(sysvar(&"clock".to_string()), None);
    assert_eq!(parse_sysvar(&wrapper("Sysvar", "Epoch")), Err(ParseError::InvalidSysvar));
    assert_eq!(parse_sysvar(&wrapper("Sysvar", "Data")), Err(ParseError::InvalidSysvar));
}

#[test]
fn malformed_sysvar_arguments_are_rejected() {
    let e = Err(ParseError::InvalidSysvar);
    assert_eq!(parse_sysvar(&bare("Sysvar")), e);
    assert_eq!(
        parse_sysvar(&with_arguments("Sysvar", vec![GenericArgument::TypePath(vec!["Clock".to_string()])])),
        e
    );
    assert_eq!(
        parse_sysvar(&with_arguments(
            "Sysvar",
            vec![GenericArgument::Lifetime("info".to_string()), GenericArgument::Other]
        )),
        e
    );
    assert_eq!(
        parse_sysvar(&with_arguments(
            "Sysvar",
            vec![
                GenericArgument::Lifetime("info".to_string()),
                GenericArgument::TypePath(vec!["sysvar".to_string(), "Clock".to_string()])
            ]
        )),
        e
    );
    assert_eq!(parse_sysvar(&Path { leading_colon: false, segments: vec![] }), e);
}

#[test]
fn the_account_type_follows_the_wrapper() {
    let ty = |path: Path| parse_ty(&field("a", path, vec![]));
    assert!(matches!(ty(account_info()), Ok(Ty::AccountInfo)));
    assert!(matches!(ty(bare("AccountInfo")), Ok(Ty::AccountInfo)));
    assert!(matches!(ty(wrapper("ProgramState", "A")), Ok(Ty::ProgramState(t)) if t.account_ident == "A"));
    assert!(matches!(ty(wrapper("CpiState", "B")), Ok(Ty::CpiState(t)) if t.account_ident == "B"));
    assert!(matches!(ty(wrapper("ProgramAccount", "C")), Ok(Ty::ProgramAccount(t)) if t.account_ident == "C"));
    assert!(matches!(ty(wrapper("CpiAccount", "D")), Ok(Ty::CpiAccount(t)) if t.account_ident == "D"));
    assert!(matches!(ty(wrapper("Loader", "E")), Ok(Ty::Loader(t)) if t.account_ident == "E"));
    assert!(matches!(ty(wrapper("Sysvar", "Rent")), Ok(Ty::Sysvar(SysvarTy::Rent))));
}

#[test]
fn the_account_type_has_its_failures() {
    let ty = |path: Path| parse_ty(&field("a", path, vec![])).unwrap_err();
    assert_eq!(ty(bare("Nested")), ParseError::InvalidAccountType);
    assert_eq!(ty(wrapper("Nested", "Data")), ParseError::InvalidAccountType);
    assert_eq!(ty(bare("ProgramAccount")), ParseError::InvalidProgramAccount);
    assert_eq!(ty(bare("Loader")), ParseError::InvalidProgramAccount);
    assert_eq!(ty(bare("Sysvar")), ParseError::InvalidSysvar);
    assert_eq!(ty(wrapper("Sysvar", "Data")), ParseError::InvalidSysvar);
    let other = StructField { attrs: vec![], ident: "a".to_string(), ty: Type::Other };
    assert_eq!(parse_ty(&other).unwrap_err(), ParseError::InvalidAccountSyntax);
    let qualified = Path {
        leading_colon: false,
        segments: vec![
            segment("anchor_lang", PathArguments::Absent),
            segment("AccountInfo", PathArguments::Absent),
        ],
    };
    assert_eq!(ty(qualified), ParseError::QualifiedType);
}

#[test]
fn a_wrapper_field_is_a_single_account() {
    let f = field(
        "vault",
        wrapper("ProgramAccount", "Vault"),
        vec![account("(init, signer, payer = funder, space = \"8 + 32\", with = mint)")],
    );
    match parse_account_field(&f).unwrap() {
        AccountField::Field(parsed) => {
            assert_eq!(parsed.ident, "vault");
            assert!(matches!(&parsed.ty, Ty::ProgramAccount(t) if t.account_ident == "Vault"));
            assert!(parsed.is_init);
            assert!(parsed.is_mut);
            assert!(parsed.is_signer);
            assert_eq!(parsed.payer.as_deref(), Some("funder"));
            assert_eq!(
                parsed.space.unwrap().to_string(),
                "8 + 32".parse::<TokenStream>().unwrap().to_string()
            );
            assert_eq!(parsed.associated_seeds, vec!["mint"]);
            assert_eq!(parsed.constraints.len(), 2);
            assert!(matches!(parsed.constraints[0], Constraint::Signer));
            assert!(matches!(parsed.constraints[1], Constraint::RentExempt(_)));
        }
        other => panic!("not a single account: {:?}", other),
    }
}

#[test]
fn any_other_type_is_a_nested_group() {
    let f = field("inner", wrapper("Nested", "Data"), vec![account("(\"inner.a.key == b.key\", mut)")]);
    match parse_account_field(&f).unwrap() {
        AccountField::CompositeField(parsed) => {
            assert_eq!(parsed.ident, "inner");
            assert_eq!(parsed.symbol, "Nested");
            assert_eq!(parsed.constraints.len(), 1);
            assert!(matches!(parsed.constraints[0], Constraint::Literal { .. }));
        }
        other => panic!("not a nested group: {:?}", other),
    }
    let plain = field("inner", bare("Nested"), vec![]);
    assert!(matches!(parse_account_field(&plain), Ok(AccountField::CompositeField(_))));
}

#[test]
fn attributes_are_read_before_the_type() {
    let f = StructField {
        attrs: vec![account("(frobnicate)")],
        ident: "a".to_string(),
        ty: Type::Other,
    };
    assert_eq!(parse_account_field(&f).unwrap_err(), ParseError::InvalidSyntax);
    let typed = StructField { attrs: vec![account("(mut)")], ident: "a".to_string(), ty: Type::Other };
    assert_eq!(parse_account_field(&typed).unwrap_err(), ParseError::InvalidAccountSyntax);
    let malformed = field("a", bare("ProgramAccount"), vec![account("(mut)")]);
    assert_eq!(parse_account_field(&malformed).unwrap_err(), ParseError::InvalidProgramAccount);
}

#[test]
fn fields_must_be_named() {
    let mut strct = structure(vec![]);
    strct.fields = Fields::Unnamed;
    assert_eq!(parse(&strct).unwrap_err(), ParseError::UnnamedFields);
    strct.fields = Fields::Unit;
    assert_eq!(parse(&strct).unwrap_err(), ParseError::UnnamedFields);
}

#[test]
fn a_structure_keeps_name_parameters_and_field_order() {
    let strct = ItemStruct {
        ident: "Transfer".to_string(),
        generics: vec![
            GenericParam::Lifetime("info".to_string()),
            GenericParam::Type("T".to_string()),
            GenericParam::Const("N".to_string()),
        ],
        fields: Fields::Named(vec![
            field("from", wrapper("ProgramAccount", "Vault"), vec![account("(mut, has_one = authority)")]),
            field("authority", account_info(), vec![account("(signer)")]),
            field("inner", bare("Nested"), vec![]),
            field("clock", wrapper("Sysvar", "Clock"), vec![]),
        ]),
    };
    let accs = parse(&strct).unwrap();
    assert_eq!(accs.ident, "Transfer");
    assert_eq!(accs.generics.len(), 3);
    assert!(matches!(&accs.generics[0], GenericParam::Lifetime(n) if n == "info"));
    assert!(matches!(&accs.generics[1], GenericParam::Type(n) if n == "T"));
    assert!(matches!(&accs.generics[2], GenericParam::Const(n) if n == "N"));
    let names: Vec<&str> = accs.fields.iter().map(name_of).collect();
    assert_eq!(names, vec!["from", "authority", "inner", "clock"]);
    assert!(matches!(&accs.fields[0], AccountField::Field(f) if f.is_mut && f.constraints.len() == 1));
    assert!(matches!(&accs.fields[1], AccountField::Field(f) if f.is_signer));
    assert!(matches!(&accs.fields[2], AccountField::CompositeField(f) if f.symbol == "Nested"));
    assert!(matches!(&accs.fields[3], AccountField::Field(f) if matches!(f.ty, Ty::Sysvar(SysvarTy::Clock))));
}

#[test]
fn an_empty_structure_has_no_fields() {
    let accs = parse(&structure(vec![])).unwrap();
    assert!(accs.fields.is_empty());
    assert_eq!(accs.ident, "Transfer");
}

#[test]
fn the_first_failing_field_fails_the_structure() {
    let strct = structure(vec![
        field("a", account_info(), vec![account("(mut)")]),
        field("b", bare("Sysvar"), vec![]),
        field("c", account_info(), vec![account("(frobnicate)")]),
    ]);
    assert_eq!(parse(&strct).unwrap_err(), ParseError::InvalidSysvar);
    let strct = structure(vec![
        field("a", account_info(), vec![account("(mut)")]),
        field("c", account_info(), vec![account("(frobnicate)")]),
        field("b", bare("Sysvar"), vec![]),
    ]);
    assert_eq!(parse(&strct).unwrap_err(), ParseError::InvalidSyntax);
}
