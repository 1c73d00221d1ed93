//! The constraint model: what may be demanded of one account.

use crate::token::{optional_stream_tokens, stream_tokens, Delimiter, TokenView};
use vstd::prelude::*;

verus! {

/// Whether the rent-exemption check is made or waived.
#[derive(Clone, Copy, Debug, PartialEq, Eq, Structural)]
pub enum ConstraintRentExempt {
    /// The account must be rent exempt.
    Enforce,
    /// The check is explicitly waived.
    Skip,
}

/// One demand on an account.
#[derive(Clone, Debug)]
pub enum Constraint {
    /// The account must have signed the transaction.
    Signer,
    /// The account's address must derive from these seeds. The group is
    /// carried as written; deriving the address is not done here.
    Seeds { delimiter: Delimiter, seeds: proc_macro2::TokenStream },
    /// The key stored in this account under the target's name must equal the
    /// address of the sibling field of that name.
    BelongsTo { join_target: String },
    /// The account must be owned by the named program.
    Owner { owner_target: String },
    /// The rent-exemption check, enforced or waived.
    RentExempt(ConstraintRentExempt),
    /// The account must hold a program binary.
    Executable,
    /// The account must be the state of the named program.
    State { program_target: String },
    /// The account's address must be the one derived from the target and the
    /// seed list; with `is_init` the account is also created in this call.
    Associated { associated_target: String, is_init: bool },
    /// A boolean expression checked as written.
    Literal { tokens: proc_macro2::TokenStream },
}

/// The mathematical reading of a [`Constraint`].
pub enum ConstraintView {
    Signer,
    Seeds { delimiter: Delimiter, seeds: Seq<TokenView> },
    BelongsTo { join_target: Seq<char> },
    Owner { owner_target: Seq<char> },
    RentExempt(ConstraintRentExempt),
    Executable,
    State { program_target: Seq<char> },
    Associated { associated_target: Seq<char>, is_init: bool },
    Literal { tokens: Seq<TokenView> },
}

impl DeepView for Constraint {
    type V = ConstraintView;

    open spec fn deep_view(&self) -> ConstraintView {
        match self {
            Constraint::Signer => ConstraintView::Signer,
            Constraint::Seeds { delimiter, seeds } => ConstraintView::Seeds {
                delimiter: *delimiter,
                seeds: stream_tokens(*seeds),
            },
            Constraint::BelongsTo { join_target } => ConstraintView::BelongsTo {
                join_target: join_target@,
            },
            Constraint::Owner { owner_target } => ConstraintView::Owner {
                owner_target: owner_target@,
            },
            Constraint::RentExempt(rent) => ConstraintView::RentExempt(*rent),
            Constraint::Executable => ConstraintView::Executable,
            Constraint::State { program_target } => ConstraintView::State {
                program_target: program_target@,
            },
            Constraint::Associated { associated_target, is_init } => ConstraintView::Associated {
                associated_target: associated_target@,
                is_init: *is_init,
            },
            Constraint::Literal { tokens } => ConstraintView::Literal {
                tokens: stream_tokens(*tokens),
            },
        }
    }
}

impl ConstraintView {
    /// An associated constraint that also creates its account.
    pub open spec fn is_associated_init(self) -> bool {
        self matches ConstraintView::Associated { is_init, .. } && is_init
    }

    /// This constraint with the creation flag of an associated constraint
    /// switched on; any other constraint as it is.
    pub open spec fn marked_init(self) -> ConstraintView {
        match self {
            ConstraintView::Associated { associated_target, .. } => ConstraintView::Associated {
                associated_target,
                is_init: true,
            },
            other => other,
        }
    }
}

/// All that one `account(...)` attribute says of its field.
#[derive(Clone, Debug)]
pub struct ConstraintGroup {
    /// The constraints, in the order in which they are checked.
    pub constraints: Vec<Constraint>,
    /// The account is written to.
    pub is_mut: bool,
    /// The account must sign.
    pub is_signer: bool,
    /// The account is initialized by the generic path.
    pub is_init: bool,
    /// The field that funds the allocation.
    pub payer: Option<String>,
    /// The size of the allocation, as an expression.
    pub space: Option<proc_macro2::TokenStream>,
    /// The fields whose addresses seed an associated address, in order.
    pub associated_seeds: Vec<String>,
}

/// The mathematical reading of a [`ConstraintGroup`].
pub struct ConstraintGroupView {
    pub constraints: Seq<ConstraintView>,
    pub is_mut: bool,
    pub is_signer: bool,
    pub is_init: bool,
    pub payer: Option<Seq<char>>,
    pub space: Option<Seq<TokenView>>,
    pub associated_seeds: Seq<Seq<char>>,
}

impl DeepView for ConstraintGroup {
    type V = ConstraintGroupView;

    open spec fn deep_view(&self) -> ConstraintGroupView {
        ConstraintGroupView {
            constraints: self.constraints.deep_view(),
            is_mut: self.is_mut,
            is_signer: self.is_signer,
            is_init: self.is_init,
            payer: self.payer.deep_view(),
            space: optional_stream_tokens(self.space),
            associated_seeds: self.associated_seeds.deep_view(),
        }
    }
}

impl ConstraintGroupView {
    /// What holds of every group that comes out of an attribute: the flags
    /// and the constraint list agree with each other.
    pub open spec fn well_formed(self) -> bool {
        // An account that is initialized is written to.
        &&& self.is_init ==> self.is_mut
        // An associated account is written to, and is never initialized by
        // the generic path.
        &&& forall|k: int|
            0 <= k < self.constraints.len() && (#[trigger] self.constraints[k]) is Associated
                ==> self.is_mut && !self.is_init
        // All associated constraints of one field agree on whether the
        // account is created.
        &&& forall|j: int, k: int|
            0 <= j < self.constraints.len() && 0 <= k < self.constraints.len()
                && (#[trigger] self.constraints[j]) is Associated
                && (#[trigger] self.constraints[k]) is Associated
                ==> self.constraints[j]->Associated_is_init
                == self.constraints[k]->Associated_is_init
        // The rent-exemption constraint stands last, so there is at most one.
        &&& forall|k: int|
            0 <= k < self.constraints.len() && (#[trigger] self.constraints[k]) is RentExempt
                ==> k == self.constraints.len() - 1
        // The signer flag is set exactly where a signer constraint is made.
        &&& self.is_signer <==> exists|k: int|
            0 <= k < self.constraints.len() && (#[trigger] self.constraints[k]) is Signer
    }

    /// What a field without an `account` attribute gets.
    pub open spec fn empty() -> ConstraintGroupView {
        ConstraintGroupView {
            constraints: Seq::empty(),
            is_mut: false,
            is_signer: false,
            is_init: false,
            payer: None,
            space: None,
            associated_seeds: Seq::empty(),
        }
    }
}

impl ConstraintGroup {
    /// What a field without an `account` attribute gets: no constraint, no
    /// flag.
    pub fn empty() -> (group: ConstraintGroup)
        ensures
            group.deep_view() == ConstraintGroupView::empty(),
    {
        let group = ConstraintGroup {
            constraints: Vec::new(),
            is_mut: false,
            is_signer: false,
            is_init: false,
            payer: None,
            space: None,
            associated_seeds: Vec::new(),
        };
        assert(group.constraints.deep_view() =~= Seq::empty());
        assert(group.associated_seeds.deep_view() =~= Seq::empty());
        group
    }
}

} // verus!
