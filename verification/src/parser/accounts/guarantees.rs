//! What holds of everything that is read.
//!
//! The proofs on attributes are stated over the grammar of
//! [`constraints`](super::constraints): over [`attribute_constraints`],
//! which [`parse_tokens`](super::constraints::parse_tokens) computes, and
//! over the scan states that it goes through. Those on structures are stated
//! over the readings that [`parse`](super::parse) and the functions under it
//! promise.

use crate::accounts::{AccountFieldView, AccountsStructView};
use crate::constraint::{
    ConstraintGroup, ConstraintGroupView, ConstraintRentExempt, ConstraintView,
};
use crate::error::ParseError;
use crate::parser::accounts::constraints::{
    arguments_read_as, assigned_ident, attribute_arguments, attribute_constraints, entry_at,
    group_view, keyword_of, scan_from, EntryView, Keyword, ScanView,
};
use crate::parser::accounts::{
    account_attributes, account_field_of, field_can_be_read, field_constraints_read_as,
    field_reads_as, fields_read_as, struct_reads_as,
};
use crate::syntax::{FieldsView, ItemStructView, StructFieldView};
use crate::token::{has_literal, tokens_of, unlexed, LexedToken, LexedTokenView, TokenView};
use vstd::prelude::*;

verus! {

/// Reading is deterministic: whatever comes out of reading two token
/// sequences that are the same, token for token and outcome for outcome, is
/// the same group or the same failure.
pub proof fn reading_is_deterministic(
    first: Vec<LexedToken>,
    second: Vec<LexedToken>,
    first_read: Result<ConstraintGroup, ParseError>,
    second_read: Result<ConstraintGroup, ParseError>,
)
    requires
        first.deep_view() == second.deep_view(),
        group_view(first_read) == attribute_constraints(first.deep_view()),
        group_view(second_read) == attribute_constraints(second.deep_view()),
    ensures
        group_view(first_read) == group_view(second_read),
{
}

/// Tokens without a literal come to one list of lexed tokens only.
pub proof fn literal_free_tokens_lex_one_way(lexed: Seq<LexedTokenView>)
    requires
        !has_literal(tokens_of(lexed)),
    ensures
        lexed == unlexed(tokens_of(lexed)),
{
    let tokens = tokens_of(lexed);
    assert forall|i: int| 0 <= i < lexed.len() implies lexed[i] == unlexed(tokens)[i] by {
        assert(!(tokens[i] is Literal));
        assert(tokens[i] == lexed[i].token());
    }
    assert(lexed =~= unlexed(tokens));
}

/// Where nothing is lexed, reading is deterministic over the tokens alone:
/// tokens without a literal have one reading.
pub proof fn literal_free_arguments_read_one_way(
    tokens: Seq<TokenView>,
    first: Result<ConstraintGroupView, ParseError>,
    second: Result<ConstraintGroupView, ParseError>,
)
    requires
        !has_literal(tokens),
        arguments_read_as(tokens, first),
        arguments_read_as(tokens, second),
    ensures
        first == second,
        first == attribute_constraints(unlexed(tokens)),
{
    let a = choose|lexed: Seq<LexedTokenView>|
        tokens_of(lexed) == tokens && #[trigger] attribute_constraints(lexed) == first;
    let b = choose|lexed: Seq<LexedTokenView>|
        tokens_of(lexed) == tokens && #[trigger] attribute_constraints(lexed) == second;
    literal_free_tokens_lex_one_way(a);
    literal_free_tokens_lex_one_way(b);
}

impl ScanView {
    /// What holds of a scan state at every point of a scan.
    pub open spec fn consistent(self) -> bool {
        // The rent-exemption constraint is only made at the end.
        &&& forall|k: int|
            0 <= k < self.constraints.len() ==> !((#[trigger] self.constraints[k]) is RentExempt)
        &&& self.is_init ==> self.is_mut && self.rent_exempt is Some
        &&& self.is_associated ==> self.is_mut
        &&& self.is_associated <==> exists|k: int|
            0 <= k < self.constraints.len() && (#[trigger] self.constraints[k]) is Associated
        &&& self.is_signer <==> exists|k: int|
            0 <= k < self.constraints.len() && (#[trigger] self.constraints[k]) is Signer
        // Before `init` is read, no associated constraint creates its account.
        &&& !self.is_init ==> forall|k: int|
            0 <= k < self.constraints.len() && (#[trigger] self.constraints[k]) is Associated
                ==> !self.constraints[k]->Associated_is_init
    }
}

/// A scan starts in a consistent state.
pub proof fn start_is_consistent()
    ensures
        ScanView::start().consistent(),
{
}

/// Every entry keeps a consistent state consistent.
pub proof fn apply_keeps_consistent(state: ScanView, entry: EntryView)
    requires
        state.consistent(),
    ensures
        state.apply(entry).consistent(),
{
    let after = state.apply(entry);
    match entry {
        EntryView::Separator => {},
        EntryView::Init => {},
        EntryView::Mut => {},
        EntryView::RentExempt(_) => {},
        EntryView::With(_) => {},
        EntryView::Payer(_) => {},
        EntryView::Space(_) => {},
        EntryView::Signer => {
            let before = ScanView { is_signer: true, ..state };
            assert(after.constraints[state.constraints.len() as int] is Signer);
            push_keeps_witness(before, ConstraintView::Signer);
        },
        EntryView::Seeds(delimiter, seeds) => {
            push_keeps_witness(state, ConstraintView::Seeds { delimiter, seeds });
        },
        EntryView::BelongsTo(join_target) => {
            push_keeps_witness(state, ConstraintView::BelongsTo { join_target });
        },
        EntryView::Owner(owner_target) => {
            push_keeps_witness(state, ConstraintView::Owner { owner_target });
        },
        EntryView::Executable => {
            push_keeps_witness(state, ConstraintView::Executable);
        },
        EntryView::State(program_target) => {
            push_keeps_witness(state, ConstraintView::State { program_target });
        },
        EntryView::Associated(associated_target) => {
            let before = ScanView { is_associated: true, is_mut: true, ..state };
            let constraint = ConstraintView::Associated {
                associated_target,
                is_init: state.is_init,
            };
            assert(after.constraints[state.constraints.len() as int] is Associated);
            push_keeps_witness(before, constraint);
        },
        EntryView::Literal(tokens) => {
            push_keeps_witness(state, ConstraintView::Literal { tokens });
        },
    }
}

/// With one more constraint at the end, the list holds a signer or an
/// associated constraint exactly if it held one before or the new one is
/// one.
proof fn push_keeps_witness(state: ScanView, constraint: ConstraintView)
    ensures
        (exists|k: int|
            0 <= k < state.with_constraint(constraint).constraints.len() && (
            #[trigger] state.with_constraint(constraint).constraints[k]) is Signer) <==> (
        constraint is Signer || exists|k: int|
            0 <= k < state.constraints.len() && (#[trigger] state.constraints[k]) is Signer),
        (exists|k: int|
            0 <= k < state.with_constraint(constraint).constraints.len() && (
            #[trigger] state.with_constraint(constraint).constraints[k]) is Associated) <==> (
        constraint is Associated || exists|k: int|
            0 <= k < state.constraints.len() && (#[trigger] state.constraints[k]) is Associated),
{
    let after = state.with_constraint(constraint).constraints;
    let last = state.constraints.len() as int;
    assert(after[last] == constraint);
    assert forall|k: int| 0 <= k < last implies #[trigger] after[k] == state.constraints[k] by {}
    if exists|k: int|
        0 <= k < state.constraints.len() && (#[trigger] state.constraints[k]) is Signer {
        let k = choose|k: int|
            0 <= k < state.constraints.len() && (#[trigger] state.constraints[k]) is Signer;
        assert(after[k] is Signer);
    }
    if exists|k: int|
        0 <= k < state.constraints.len() && (#[trigger] state.constraints[k]) is Associated {
        let k = choose|k: int|
            0 <= k < state.constraints.len() && (#[trigger] state.constraints[k]) is Associated;
        assert(after[k] is Associated);
    }
    if exists|k: int| 0 <= k < after.len() && (#[trigger] after[k]) is Signer {
        let k = choose|k: int| 0 <= k < after.len() && (#[trigger] after[k]) is Signer;
        if k < last {
            assert(state.constraints[k] is Signer);
        }
    }
    if exists|k: int| 0 <= k < after.len() && (#[trigger] after[k]) is Associated {
        let k = choose|k: int| 0 <= k < after.len() && (#[trigger] after[k]) is Associated;
        if k < last {
            assert(state.constraints[k] is Associated);
        }
    }
}

/// A scan that sets out from a consistent state ends in one.
pub proof fn scan_keeps_consistent(tokens: Seq<LexedTokenView>, pos: int, state: ScanView)
    requires
        state.consistent(),
    ensures
        scan_from(tokens, pos, state) matches Ok(end) ==> end.consistent(),
    decreases tokens.len() - pos,
{
    if 0 <= pos < tokens.len() {
        match entry_at(tokens, pos) {
            Ok((entry, next)) => {
                apply_keeps_consistent(state, entry);
                scan_keeps_consistent(tokens, next, state.apply(entry));
            },
            Err(_) => {},
        }
    }
}

/// What a consistent state hands out at the end is well formed.
pub proof fn finish_is_well_formed(state: ScanView)
    requires
        state.consistent(),
    ensures
        state.finish().well_formed(),
{
    let group = state.finish();
    let marked = if state.is_init {
        state.constraints.map_values(|c: ConstraintView| c.marked_init())
    } else {
        state.constraints
    };
    assert forall|k: int| 0 <= k < marked.len() implies {
        &&& (#[trigger] marked[k]) is Signer <==> state.constraints[k] is Signer
        &&& marked[k] is Associated <==> state.constraints[k] is Associated
        &&& !(marked[k] is RentExempt)
        &&& marked[k] is Associated ==> marked[k]->Associated_is_init == state.is_init
    } by {}
    assert forall|k: int| 0 <= k < group.constraints.len() implies {
        &&& (#[trigger] group.constraints[k]) is Associated ==> k < marked.len()
        &&& group.constraints[k] is Signer ==> k < marked.len()
        &&& k < marked.len() ==> group.constraints[k] == marked[k]
    } by {}
    if group.is_signer {
        let k = choose|k: int|
            0 <= k < state.constraints.len() && (#[trigger] state.constraints[k]) is Signer;
        assert(marked[k] is Signer);
        assert(group.constraints[k] is Signer);
    }
    if exists|k: int|
        0 <= k < group.constraints.len() && (#[trigger] group.constraints[k]) is Signer {
        let k = choose|k: int|
            0 <= k < group.constraints.len() && (#[trigger] group.constraints[k]) is Signer;
        assert(state.constraints[k] is Signer);
    }
    assert forall|k: int|
        0 <= k < group.constraints.len() && (#[trigger] group.constraints[k])
            is Associated implies group.is_mut && !group.is_init by {
        assert(state.constraints[k] is Associated);
    }
}

/// Every group that an attribute gives is well formed.
pub proof fn parsed_group_is_well_formed(tokens: Seq<LexedTokenView>)
    ensures
        attribute_constraints(tokens) matches Ok(group) ==> group.well_formed(),
{
    start_is_consistent();
    scan_keeps_consistent(tokens, 0, ScanView::start());
    match scan_from(tokens, 0, ScanView::start()) {
        Ok(end) => {
            finish_is_well_formed(end);
        },
        Err(_) => {},
    }
}

/// Constraints stand in source order: an entry never touches the
/// constraints made before it, and adds at most one after them.
pub proof fn entries_only_append(state: ScanView, entry: EntryView)
    ensures
        state.constraints.len() <= state.apply(entry).constraints.len()
            <= state.constraints.len() + 1,
        forall|k: int|
            0 <= k < state.constraints.len() ==> #[trigger] state.apply(entry).constraints[k]
                == state.constraints[k],
        state.associated_seeds.len() <= state.apply(entry).associated_seeds.len(),
        forall|k: int|
            0 <= k < state.associated_seeds.len() ==> #[trigger] state.apply(
                entry,
            ).associated_seeds[k] == state.associated_seeds[k],
{
}

/// A flag that an entry has set stays set, and what was said of the payer,
/// the space or rent exemption stays said until an entry says it anew.
pub proof fn flags_are_never_cleared(state: ScanView, entry: EntryView)
    ensures
        state.is_mut ==> state.apply(entry).is_mut,
        state.is_signer ==> state.apply(entry).is_signer,
        state.is_init ==> state.apply(entry).is_init,
        state.is_associated ==> state.apply(entry).is_associated,
        state.payer is Some ==> state.apply(entry).payer is Some,
        state.space is Some ==> state.apply(entry).space is Some,
        state.rent_exempt is Some ==> state.apply(entry).rent_exempt is Some,
        !(entry is Payer) ==> state.apply(entry).payer == state.payer,
        !(entry is Space) ==> state.apply(entry).space == state.space,
{
}

/// What is handed out at the end keeps the order of the scan: each
/// constraint stands where the scan put it, an associated constraint marked
/// as creating its account where `init` was read; the flags, the payer, the
/// space and the seeds are those of the scan.
pub proof fn finish_keeps_the_order(state: ScanView)
    ensures
        forall|k: int|
            0 <= k < state.constraints.len() ==> #[trigger] state.finish().constraints[k] == (
            if state.is_init {
                state.constraints[k].marked_init()
            } else {
                state.constraints[k]
            }),
        state.finish().constraints.len() == state.constraints.len() + (
        if state.rent_exempt is Some {
            1int
        } else {
            0int
        }),
        state.finish().is_mut == state.is_mut,
        state.finish().is_signer == state.is_signer,
        state.finish().payer == state.payer,
        state.finish().space == state.space,
        state.finish().associated_seeds == state.associated_seeds,
{
}

/// `init` and `associated = target` may come in either order: from any
/// state, the attribute ends up saying the same.
pub proof fn init_and_associated_commute(state: ScanView, target: Seq<char>)
    ensures
        state.apply(EntryView::Init).apply(EntryView::Associated(target)).finish()
            == state.apply(EntryView::Associated(target)).apply(EntryView::Init).finish(),
        !state.apply(EntryView::Init).apply(EntryView::Associated(target)).finish().is_init,
        state.apply(EntryView::Init).apply(EntryView::Associated(target)).constraints.last()
            == (ConstraintView::Associated { associated_target: target, is_init: true }),
{
    let first = state.apply(EntryView::Init).apply(EntryView::Associated(target));
    let second = state.apply(EntryView::Associated(target)).apply(EntryView::Init);
    let mark = |c: ConstraintView| c.marked_init();
    assert(first.constraints.map_values(mark) =~= second.constraints.map_values(mark));
    assert(first.settled_constraints() =~= second.settled_constraints());
}

/// The tokens of `init, associated = target`.
pub open spec fn init_then_associated(target: Seq<char>) -> Seq<LexedTokenView> {
    seq![
        LexedTokenView::Ident("init"@),
        LexedTokenView::Punct(','),
        LexedTokenView::Ident("associated"@),
        LexedTokenView::Punct('='),
        LexedTokenView::Ident(target),
    ]
}

/// The tokens of `associated = target, init`.
pub open spec fn associated_then_init(target: Seq<char>) -> Seq<LexedTokenView> {
    seq![
        LexedTokenView::Ident("associated"@),
        LexedTokenView::Punct('='),
        LexedTokenView::Ident(target),
        LexedTokenView::Punct(','),
        LexedTokenView::Ident("init"@),
    ]
}

/// What an attribute of `init` and `associated = target` says: one
/// associated constraint that creates its account, rent exemption enforced,
/// the account written to, and no initialization by the generic path.
pub open spec fn created_account(target: Seq<char>) -> ConstraintGroupView {
    ConstraintGroupView {
        constraints: seq![
            ConstraintView::Associated { associated_target: target, is_init: true },
            ConstraintView::RentExempt(ConstraintRentExempt::Enforce),
        ],
        is_mut: true,
        is_signer: false,
        is_init: false,
        payer: None,
        space: None,
        associated_seeds: Seq::empty(),
    }
}

/// `associated` is a keyword of its own.
proof fn associated_is_a_keyword()
    ensures
        keyword_of("associated"@) == Some(Keyword::Associated),
{
    reveal_strlit("associated");
    reveal_strlit("init");
    reveal_strlit("mut");
    reveal_strlit("signer");
    reveal_strlit("seeds");
    reveal_strlit("belongs_to");
    reveal_strlit("has_one");
    reveal_strlit("owner");
    reveal_strlit("rent_exempt");
    reveal_strlit("executable");
    reveal_strlit("state");
    assert("associated"@[0] == 'a');
    assert("belongs_to"@[0] == 'b');
    assert("executable"@[0] == 'e');
}

/// `init, associated = target` and `associated = target, init` say the
/// same, whatever the target: the account is created by its associated
/// constraint and not initialized a second time.
pub proof fn associated_and_init_in_either_order(target: Seq<char>)
    ensures
        attribute_constraints(init_then_associated(target)) == Ok::<
            ConstraintGroupView,
            ParseError,
        >(created_account(target)),
        attribute_constraints(associated_then_init(target)) == Ok::<
            ConstraintGroupView,
            ParseError,
        >(created_account(target)),
{
    associated_is_a_keyword();
    let start = ScanView::start();
    let mark = |c: ConstraintView| c.marked_init();
    {
        let tokens = init_then_associated(target);
        let s1 = start.apply(EntryView::Init);
        let s2 = s1.apply(EntryView::Associated(target));
        assert(entry_at(tokens, 0) == Ok::<_, ParseError>((EntryView::Init, 1int)));
        assert(entry_at(tokens, 1) == Ok::<_, ParseError>((EntryView::Separator, 2int)));
        assert(assigned_ident(tokens, 2) == Some(target));
        assert(entry_at(tokens, 2) == Ok::<_, ParseError>((EntryView::Associated(target), 5int)));
        assert(scan_from(tokens, 5, s2) == Ok::<_, ParseError>(s2));
        assert(scan_from(tokens, 2, s1) == Ok::<_, ParseError>(s2));
        assert(scan_from(tokens, 1, s1) == Ok::<_, ParseError>(s2));
        assert(scan_from(tokens, 0, start) == Ok::<_, ParseError>(s2));
        assert(s2.constraints.map_values(mark) =~= seq![
            ConstraintView::Associated { associated_target: target, is_init: true },
        ]);
        assert(s2.settled_constraints() =~= created_account(target).constraints);
        assert(s2.finish().associated_seeds =~= Seq::empty());
    }
    {
        let tokens = associated_then_init(target);
        let s1 = start.apply(EntryView::Associated(target));
        let s2 = s1.apply(EntryView::Init);
        assert(assigned_ident(tokens, 0) == Some(target));
        assert(entry_at(tokens, 0) == Ok::<_, ParseError>((EntryView::Associated(target), 3int)));
        assert(entry_at(tokens, 3) == Ok::<_, ParseError>((EntryView::Separator, 4int)));
        assert(entry_at(tokens, 4) == Ok::<_, ParseError>((EntryView::Init, 5int)));
        assert(scan_from(tokens, 5, s2) == Ok::<_, ParseError>(s2));
        assert(scan_from(tokens, 4, s1) == Ok::<_, ParseError>(s2));
        assert(scan_from(tokens, 3, s1) == Ok::<_, ParseError>(s2));
        assert(scan_from(tokens, 0, start) == Ok::<_, ParseError>(s2));
        assert(s2.constraints.map_values(mark) =~= seq![
            ConstraintView::Associated { associated_target: target, is_init: true },
        ]);
        assert(s2.settled_constraints() =~= created_account(target).constraints);
        assert(s2.finish().associated_seeds =~= Seq::empty());
    }
}

/// The entries that a scan setting out at `pos` reads, in order, up to the
/// end of the tokens or the first failure.
pub open spec fn entries_from(tokens: Seq<LexedTokenView>, pos: int) -> Seq<EntryView>
    decreases tokens.len() - pos,
{
    if 0 <= pos < tokens.len() {
        match entry_at(tokens, pos) {
            Ok((entry, next)) => seq![entry] + entries_from(tokens, next),
            Err(_) => Seq::empty(),
        }
    } else {
        Seq::empty()
    }
}

/// Whether none of the entries is `init` or says anything of rent
/// exemption.
pub open spec fn says_nothing_of_rent(entries: Seq<EntryView>) -> bool {
    forall|k: int|
        0 <= k < entries.len() ==> !((#[trigger] entries[k]) is Init) && !(entries[k]
            is RentExempt)
}

/// A scan that reads neither `init` nor `rent_exempt`, and sets out with no
/// rent-exemption state, ends with none.
proof fn scan_sets_no_rent_exemption(tokens: Seq<LexedTokenView>, pos: int, state: ScanView)
    requires
        says_nothing_of_rent(entries_from(tokens, pos)),
        state.rent_exempt is None,
    ensures
        scan_from(tokens, pos, state) matches Ok(end) ==> end.rent_exempt is None,
    decreases tokens.len() - pos,
{
    if 0 <= pos < tokens.len() {
        match entry_at(tokens, pos) {
            Ok((entry, next)) => {
                let entries = entries_from(tokens, pos);
                let rest = entries_from(tokens, next);
                assert(entries == seq![entry] + rest);
                assert(entries[0] == entry);
                assert forall|k: int| 0 <= k < rest.len() implies !((#[trigger] rest[k])
                    is Init) && !(rest[k] is RentExempt) by {
                    assert(entries[k + 1] == rest[k]);
                }
                scan_sets_no_rent_exemption(tokens, next, state.apply(entry));
            },
            Err(_) => {},
        }
    }
}

/// An attribute in which no entry is `init` or `rent_exempt` makes no
/// rent-exemption constraint. What stands as the value of another keyword
/// is no entry: `belongs_to = init` says nothing of rent exemption.
pub proof fn rent_exemption_needs_a_keyword(tokens: Seq<LexedTokenView>)
    requires
        says_nothing_of_rent(entries_from(tokens, 0)),
    ensures
        attribute_constraints(tokens) matches Ok(group) ==> forall|k: int|
            0 <= k < group.constraints.len() ==> !((#[trigger] group.constraints[k])
                is RentExempt),
{
    scan_sets_no_rent_exemption(tokens, 0, ScanView::start());
    scan_keeps_consistent(tokens, 0, ScanView::start());
    match scan_from(tokens, 0, ScanView::start()) {
        Ok(end) => {
            let group = end.finish();
            assert forall|k: int| 0 <= k < group.constraints.len() implies !((
            #[trigger] group.constraints[k]) is RentExempt) by {
                assert(!(end.constraints[k] is RentExempt));
            }
        },
        Err(_) => {},
    }
}

/// `rent_exempt` on its own is an entry wherever it stands: followed by
/// anything but `=`, it enforces rent exemption and the next entry starts
/// right after it.
pub proof fn bare_rent_exempt_is_an_entry(tokens: Seq<LexedTokenView>, pos: int)
    requires
        0 <= pos < tokens.len(),
        tokens[pos] == LexedTokenView::Ident("rent_exempt"@),
        pos + 1 < tokens.len() ==> tokens[pos + 1] != LexedTokenView::Punct('='),
    ensures
        entry_at(tokens, pos) == Ok::<(EntryView, int), ParseError>(
            (EntryView::RentExempt(ConstraintRentExempt::Enforce), pos + 1),
        ),
{
    reveal_strlit("rent_exempt");
    reveal_strlit("init");
    reveal_strlit("mut");
    reveal_strlit("signer");
    reveal_strlit("seeds");
    reveal_strlit("belongs_to");
    reveal_strlit("has_one");
    reveal_strlit("owner");
    assert("rent_exempt"@.len() == 11);
    assert("init"@.len() == 4 && "mut"@.len() == 3 && "signer"@.len() == 6);
    assert("seeds"@.len() == 5 && "belongs_to"@.len() == 10 && "has_one"@.len() == 7);
    assert("owner"@.len() == 5);
    assert(keyword_of("rent_exempt"@) == Some(Keyword::RentExempt));
}

/// `init` enforces rent exemption only where nothing was said of it yet, and
/// an explicit `rent_exempt` stands whether it comes before `init` or after.
pub proof fn explicit_rent_exemption_overrides_init(state: ScanView, rent: ConstraintRentExempt)
    ensures
        state.apply(EntryView::Init).apply(EntryView::RentExempt(rent)).rent_exempt == Some(rent),
        state.apply(EntryView::RentExempt(rent)).apply(EntryView::Init).rent_exempt == Some(rent),
        state.rent_exempt is None ==> state.apply(EntryView::Init).rent_exempt == Some(
            ConstraintRentExempt::Enforce,
        ),
{
}

/// A state that holds a rent-exemption state hands out that constraint, and
/// hands it out last.
pub proof fn rent_exemption_comes_last(state: ScanView, rent: ConstraintRentExempt)
    requires
        state.rent_exempt == Some(rent),
    ensures
        state.finish().constraints.len() == state.constraints.len() + 1,
        state.finish().constraints.last() == ConstraintView::RentExempt(rent),
{
}

/// Whether the scan that sets out at `from` comes to start an entry at
/// `pos`: every entry before `pos` is read without a failure, and one of
/// them ends at `pos`.
pub open spec fn entry_starts(tokens: Seq<LexedTokenView>, from: int, pos: int) -> bool
    decreases tokens.len() - from,
{
    if from == pos {
        true
    } else if 0 <= from < tokens.len() && from < pos {
        match entry_at(tokens, from) {
            Ok((_, next)) => entry_starts(tokens, next, pos),
            Err(_) => false,
        }
    } else {
        false
    }
}

/// Whether the token at `pos` is an identifier that is no keyword.
pub open spec fn unknown_keyword_at(tokens: Seq<LexedTokenView>, pos: int) -> bool {
    &&& 0 <= pos < tokens.len()
    &&& tokens[pos] matches LexedTokenView::Ident(name)
    &&& keyword_of(name) is None
}

/// A scan that comes to an unknown keyword fails there, whatever it has read
/// so far.
proof fn scan_fails_at_unknown_keyword(
    tokens: Seq<LexedTokenView>,
    from: int,
    pos: int,
    state: ScanView,
)
    requires
        entry_starts(tokens, from, pos),
        unknown_keyword_at(tokens, pos),
    ensures
        scan_from(tokens, from, state) == Err::<ScanView, ParseError>(ParseError::InvalidSyntax),
    decreases tokens.len() - from,
{
    if from != pos {
        match entry_at(tokens, from) {
            Ok((entry, next)) => {
                scan_fails_at_unknown_keyword(tokens, next, pos, state.apply(entry));
            },
            Err(_) => {},
        }
    }
}

/// The vocabulary is closed: an attribute in which an entry starts with an
/// identifier that is no keyword is turned down, never read past.
pub proof fn unknown_keyword_is_rejected(tokens: Seq<LexedTokenView>, pos: int)
    requires
        entry_starts(tokens, 0, pos),
        unknown_keyword_at(tokens, pos),
    ensures
        attribute_constraints(tokens) == Err::<ConstraintGroupView, ParseError>(
            ParseError::InvalidSyntax,
        ),
{
    scan_fails_at_unknown_keyword(tokens, 0, pos, ScanView::start());
}

/// Every reading of a field's attributes that is no failure is well formed,
/// and so is what a single account holds of it.
pub proof fn parsed_field_is_well_formed(
    f: StructFieldView,
    group: Result<ConstraintGroupView, ParseError>,
)
    requires
        field_constraints_read_as(f, group),
    ensures
        group matches Ok(group) ==> group.well_formed(),
        account_field_of(f, group) matches Ok(AccountFieldView::Field(field))
            ==> field.constraint_group().well_formed(),
{
    let accounts = account_attributes(f.attrs);
    if accounts.len() == 1 {
        match attribute_arguments(accounts[0].tokens) {
            Ok(inner) => {
                let lexed = choose|lexed: Seq<LexedTokenView>|
                    tokens_of(lexed) == inner && #[trigger] attribute_constraints(lexed)
                        == group;
                parsed_group_is_well_formed(lexed);
            },
            Err(_) => {},
        }
    }
    match account_field_of(f, group) {
        Ok(AccountFieldView::Field(field)) => {
            assert(field.constraint_group() == group->Ok_0);
        },
        _ => {},
    }
}

/// A field with more than one `account` attribute is turned down for that
/// reason, whatever the attributes hold and whatever its type is: it has no
/// other reading.
pub proof fn several_account_attributes_fail_the_field(
    f: StructFieldView,
    field: Result<AccountFieldView, ParseError>,
)
    requires
        account_attributes(f.attrs).len() >= 2,
        field_reads_as(f, field),
    ensures
        field == Err::<AccountFieldView, ParseError>(ParseError::MultipleAccountAttributes),
{
}

/// A structure in which a field has more than one `account` attribute is
/// turned down: with that field's failure, unless an earlier field was read
/// as a failure first.
pub proof fn several_account_attributes_fail_the_structure(
    strct: ItemStructView,
    twice: int,
    accs: Result<AccountsStructView, ParseError>,
)
    requires
        strct.fields matches FieldsView::Named(fields) && 0 <= twice < fields.len()
            && account_attributes(fields[twice].attrs).len() >= 2,
        struct_reads_as(strct, accs),
    ensures
        accs is Err,
        accs != Err::<AccountsStructView, ParseError>(ParseError::MultipleAccountAttributes)
            ==> exists|earlier: int|
            0 <= earlier < twice && field_reads_as(
                #[trigger] strct.fields->Named_0[earlier],
                Err::<AccountFieldView, ParseError>(accs->Err_0),
            ),
{
    let fields = strct.fields->Named_0;
    match accs {
        Ok(read) => {
            several_account_attributes_fail_the_field(
                fields[twice],
                Ok::<AccountFieldView, ParseError>(read.fields[twice]),
            );
        },
        Err(e) => {
            let failing = choose|i: int|
                0 <= i < fields.len() && field_reads_as(
                    #[trigger] fields[i],
                    Err::<AccountFieldView, ParseError>(e),
                ) && forall|j: int| 0 <= j < i ==> field_can_be_read(#[trigger] fields[j]);
            if failing == twice {
                several_account_attributes_fail_the_field(
                    fields[twice],
                    Err::<AccountFieldView, ParseError>(e),
                );
            } else if failing > twice {
                assert(field_can_be_read(fields[twice]));
                let read = choose|field: AccountFieldView| #[trigger]
                    field_reads_as(fields[twice], Ok::<AccountFieldView, ParseError>(field));
                several_account_attributes_fail_the_field(
                    fields[twice],
                    Ok::<AccountFieldView, ParseError>(read),
                );
            }
        },
    }
}

/// The fields that are read stand in the order of their declaration: there
/// is one for each field of the structure, it is a reading of that field,
/// and it goes by that field's name.
pub proof fn fields_keep_their_order(
    fields: Seq<StructFieldView>,
    parsed: Seq<AccountFieldView>,
)
    requires
        fields_read_as(fields, Ok::<Seq<AccountFieldView>, ParseError>(parsed)),
    ensures
        parsed.len() == fields.len(),
        forall|i: int| 0 <= i < fields.len() ==> (#[trigger] parsed[i]).ident() == fields[i].ident,
{
    assert forall|i: int| 0 <= i < fields.len() implies (#[trigger] parsed[i]).ident()
        == fields[i].ident by {
        assert(field_reads_as(fields[i], Ok::<AccountFieldView, ParseError>(parsed[i])));
    }
}

} // verus!
