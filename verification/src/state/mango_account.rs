//! A user's account: a fixed number of token position slots.
//!
//! A slot is active while it holds the account's position in one token and
//! vacant otherwise. Slots are never added or removed; a vacant slot is
//! claimed when a token is first touched and released once its balance is
//! back at zero.

use crate::error::MangoError;
use crate::i80f48::I80F48;
use crate::search::{first_index, lemma_first_index, lemma_first_index_is, lemma_first_index_none};
use crate::state::{Pubkey, TokenIndex};
use vstd::prelude::*;

verus! {

/// One account's stake in one bank.
#[derive(Clone, Copy, Debug, PartialEq, Eq, Structural)]
pub struct TokenPosition {
    /// The bank that the position is in.
    pub token_index: TokenIndex,
    /// The balance in the bank's scaled units: a deposit where positive, a
    /// borrow where negative.
    pub amount: I80F48,
    /// Whether the slot is in use.
    pub active: bool,
}

impl TokenPosition {
    /// A vacant slot holds no balance.
    pub open spec fn wf(&self) -> bool {
        !self.active ==> self.amount@ == 0
    }

    /// A vacant slot as a new ledger holds it.
    pub open spec fn spec_vacant() -> TokenPosition {
        TokenPosition { token_index: 0, amount: I80F48 { bits: 0 }, active: false }
    }

    /// The position that a slot holds right after it was claimed for a token.
    pub open spec fn spec_fresh(token_index: TokenIndex) -> TokenPosition {
        TokenPosition { token_index, amount: I80F48 { bits: 0 }, active: true }
    }

    /// Whether this is the active position of the given token.
    pub open spec fn spec_is_active_for_token(&self, token_index: TokenIndex) -> bool {
        self.active && self.token_index == token_index
    }

    /// A vacant slot.
    #[verifier::when_used_as_spec(spec_vacant)]
    pub fn vacant() -> (p: TokenPosition)
        ensures
            p == TokenPosition::spec_vacant(),
    {
        TokenPosition { token_index: 0, amount: I80F48::zero(), active: false }
    }

    #[verifier::when_used_as_spec(spec_fresh)]
    pub fn fresh(token_index: TokenIndex) -> (p: TokenPosition)
        ensures
            p == TokenPosition::spec_fresh(token_index),
    {
        TokenPosition { token_index, amount: I80F48::zero(), active: true }
    }

    pub fn is_active(&self) -> (r: bool)
        ensures
            r == self.active,
    {
        self.active
    }

    #[verifier::when_used_as_spec(spec_is_active_for_token)]
    pub fn is_active_for_token(&self, token_index: TokenIndex) -> (r: bool)
        ensures
            r == self.spec_is_active_for_token(token_index),
    {
        self.active && self.token_index == token_index
    }
}

/// Every slot is well formed, and no two active slots hold the same token.
pub open spec fn slots_wf(slots: Seq<TokenPosition>) -> bool {
    &&& forall|i: int| 0 <= i < slots.len() ==> (#[trigger] slots[i]).wf()
    &&& forall|i: int, j: int|
        0 <= i < j < slots.len() && (#[trigger] slots[i]).active && (#[trigger] slots[j]).active
            ==> slots[i].token_index != slots[j].token_index
}

/// As many vacant slots as given.
pub open spec fn spec_vacant_slots(capacity: nat) -> Seq<TokenPosition> {
    Seq::new(capacity, |i: int| TokenPosition::spec_vacant())
}

/// The slot of the token's active position, if the account has one.
pub open spec fn spec_find(slots: Seq<TokenPosition>, token_index: TokenIndex) -> Option<int> {
    first_index(slots, |p: TokenPosition| p.is_active_for_token(token_index))
}

/// The first vacant slot, if there is one.
pub open spec fn spec_find_vacant(slots: Seq<TokenPosition>) -> Option<int> {
    first_index(slots, |p: TokenPosition| !p.active)
}

/// Whether some active slot holds the token.
pub open spec fn holds_token(slots: Seq<TokenPosition>, token_index: TokenIndex) -> bool {
    exists|i: int| 0 <= i < slots.len() && (#[trigger] slots[i]).is_active_for_token(token_index)
}

/// The slots after a token's position was asked for, and the slot of that
/// position. The token's active position is taken where there is one. Else
/// the first vacant slot is claimed for the token with a balance of zero.
/// Else, with every slot taken by another token, the result is
/// `PositionLimitExceeded`. What this means slot by slot is stated by
/// `lemma_get_or_create`, `lemma_find` and `lemma_find_vacant`.
pub open spec fn spec_get_or_create(slots: Seq<TokenPosition>, token_index: TokenIndex) -> Result<
    (Seq<TokenPosition>, int),
    MangoError,
> {
    if holds_token(slots, token_index) {
        Ok((slots, spec_find(slots, token_index)->0))
    } else {
        match spec_find_vacant(slots) {
            Some(slot) => Ok((slots.update(slot, TokenPosition::spec_fresh(token_index)), slot)),
            None => Err(MangoError::PositionLimitExceeded),
        }
    }
}

/// Whether every active slot holds a balance other than zero: the state of an
/// account between two operations.
pub open spec fn is_settled(slots: Seq<TokenPosition>) -> bool {
    forall|i: int| 0 <= i < slots.len() && (#[trigger] slots[i]).active ==> slots[i].amount@ != 0
}

/// Where a token's slot is found, it is in range and holds the token's
/// active position; where none is found, no active slot holds the token.
pub proof fn lemma_find(slots: Seq<TokenPosition>, token_index: TokenIndex)
    ensures
        match spec_find(slots, token_index) {
            Some(i) => 0 <= i < slots.len() && slots[i].is_active_for_token(token_index),
            None => forall|j: int|
                0 <= j < slots.len() ==> !(#[trigger] slots[j]).is_active_for_token(token_index),
        },
        holds_token(slots, token_index) == (spec_find(slots, token_index) is Some),
{
    lemma_first_index(slots, |p: TokenPosition| p.is_active_for_token(token_index));
}

/// Where a vacant slot is found, it is in range, vacant, and every slot
/// before it is active; where none is found, every slot is active.
pub proof fn lemma_find_vacant(slots: Seq<TokenPosition>)
    ensures
        match spec_find_vacant(slots) {
            Some(i) => 0 <= i < slots.len() && !slots[i].active && forall|j: int|
                0 <= j < i ==> (#[trigger] slots[j]).active,
            None => forall|j: int| 0 <= j < slots.len() ==> (#[trigger] slots[j]).active,
        },
{
    lemma_first_index(slots, |p: TokenPosition| !p.active);
}

/// In a well-formed ledger at most one active slot holds a given token.
pub proof fn lemma_one_position_per_token(
    slots: Seq<TokenPosition>,
    token_index: TokenIndex,
    i: int,
    j: int,
)
    requires
        slots_wf(slots),
        0 <= i < slots.len(),
        0 <= j < slots.len(),
        slots[i].is_active_for_token(token_index),
        slots[j].is_active_for_token(token_index),
    ensures
        i == j,
{
    if i < j {
        assert(slots[i].token_index != slots[j].token_index);
    } else if j < i {
        assert(slots[j].token_index != slots[i].token_index);
    }
}

/// In a well-formed ledger a slot that is marked vacant holds a balance of
/// zero: no position is released while it holds anything.
pub proof fn lemma_vacant_slot_is_empty(slots: Seq<TokenPosition>, slot: int)
    requires
        slots_wf(slots),
        0 <= slot < slots.len(),
        !slots[slot].active,
    ensures
        slots[slot].amount@ == 0,
{
    assert(slots[slot].wf());
}

/// Asking for a token's position keeps a ledger well formed and of the same
/// length, and yields an active slot of that token.
pub proof fn lemma_get_or_create(slots: Seq<TokenPosition>, token_index: TokenIndex)
    requires
        slots_wf(slots),
    ensures
        spec_get_or_create(slots, token_index) matches Ok((after, slot)) ==> {
            &&& slots_wf(after)
            &&& after.len() == slots.len()
            &&& 0 <= slot < after.len()
            &&& after[slot].is_active_for_token(token_index)
        },
        spec_get_or_create(slots, token_index) is Err ==> forall|i: int|
            0 <= i < slots.len() ==> (#[trigger] slots[i]).active && slots[i].token_index
                != token_index,
{
    lemma_find(slots, token_index);
    lemma_find_vacant(slots);
}

/// Whether no active slot before `slot` holds the token of `slot`.
fn is_first_of_token(slots: &[TokenPosition], slot: usize) -> (r: bool)
    requires
        slot < slots@.len(),
    ensures
        r == forall|i: int|
            0 <= i < slot && (#[trigger] slots@[i]).active ==> slots@[i].token_index
                != slots@[slot as int].token_index,
{
    let mut i: usize = 0;
    while i < slot
        invariant
            i <= slot < slots@.len(),
            forall|j: int|
                0 <= j < i && (#[trigger] slots@[j]).active ==> slots@[j].token_index
                    != slots@[slot as int].token_index,
        decreases slot - i,
    {
        if slots[i].active && slots[i].token_index == slots[slot].token_index {
            return false;
        }
        i = i + 1;
    }
    true
}

/// Whether slots are well formed.
pub fn check_slots(slots: &[TokenPosition]) -> (r: bool)
    ensures
        r == slots_wf(slots@),
{
    let mut i: usize = 0;
    while i < slots.len()
        invariant
            i <= slots@.len(),
            slots_wf(slots@.take(i as int)),
        decreases slots@.len() - i,
    {
        let position = slots[i];
        if !position.active && !position.amount.is_zero() {
            assert(!slots@[i as int].wf());
            return false;
        }
        if position.active && !is_first_of_token(slots, i) {
            return false;
        }
        proof {
            let longer = slots@.take(i + 1);
            assert forall|a: int, b: int|
                0 <= a < b < longer.len() && (#[trigger] longer[a]).active && (
                #[trigger] longer[b]).active implies longer[a].token_index
                != longer[b].token_index by {
                if b < i {
                    assert(slots@.take(i as int)[a].token_index != slots@.take(
                        i as int,
                    )[b].token_index);
                }
            }
            assert forall|a: int| 0 <= a < longer.len() implies (#[trigger] longer[a]).wf() by {
                if a < i {
                    assert(slots@.take(i as int)[a].wf());
                }
            }
        }
        i = i + 1;
    }
    proof {
        assert(slots@.take(i as int) =~= slots@);
    }
    true
}

/// The slots of one account.
#[derive(Debug, PartialEq, Eq)]
pub struct PositionLedger {
    slots: Vec<TokenPosition>,
}

impl View for PositionLedger {
    type V = Seq<TokenPosition>;

    closed spec fn view(&self) -> Seq<TokenPosition> {
        self.slots@
    }
}

impl Clone for PositionLedger {
    fn clone(&self) -> (copy: PositionLedger)
        ensures
            copy@ == self@,
    {
        let mut slots: Vec<TokenPosition> = Vec::new();
        let mut i: usize = 0;
        while i < self.slots.len()
            invariant
                i <= self.slots@.len(),
                slots@ == self.slots@.subrange(0, i as int),
            decreases self.slots@.len() - i,
        {
            slots.push(self.slots[i]);
            proof {
                assert(slots@ =~= self.slots@.subrange(0, i + 1));
            }
            i = i + 1;
        }
        proof {
            assert(slots@ =~= self.slots@);
        }
        PositionLedger { slots }
    }
}

impl PositionLedger {
    pub open spec fn wf(&self) -> bool {
        slots_wf(self@)
    }

    /// A ledger of `capacity` vacant slots.
    pub fn new(capacity: usize) -> (ledger: PositionLedger)
        ensures
            ledger@ == spec_vacant_slots(capacity as nat),
            ledger.wf(),
    {
        let mut slots: Vec<TokenPosition> = Vec::new();
        let mut i: usize = 0;
        while i < capacity
            invariant
                i <= capacity,
                slots@ == spec_vacant_slots(i as nat),
            decreases capacity - i,
        {
            slots.push(TokenPosition::vacant());
            proof {
                assert(slots@ =~= spec_vacant_slots((i + 1) as nat));
            }
            i = i + 1;
        }
        PositionLedger { slots }
    }

    /// The ledger of the given slots; `InvalidInput` where they are not well
    /// formed.
    pub fn from_slots(slots: Vec<TokenPosition>) -> (r: Result<PositionLedger, MangoError>)
        ensures
            match r {
                Ok(ledger) => ledger@ == slots@ && ledger.wf(),
                Err(e) => e == MangoError::InvalidInput && !slots_wf(slots@),
            },
    {
        if check_slots(slots.as_slice()) {
            Ok(PositionLedger { slots })
        } else {
            Err(MangoError::InvalidInput)
        }
    }

    /// The slots, in order.
    pub fn as_slice(&self) -> (slots: &[TokenPosition])
        ensures
            slots@ == self@,
    {
        self.slots.as_slice()
    }

    /// The number of slots, fixed when the ledger was made.
    pub fn capacity(&self) -> (n: usize)
        ensures
            n == self@.len(),
    {
        self.slots.len()
    }

    /// The position in a slot.
    pub fn get(&self, slot: usize) -> (position: TokenPosition)
        requires
            slot < self@.len(),
        ensures
            position == self@[slot as int],
    {
        self.slots[slot]
    }

    /// The slot of the token's active position, if there is one.
    pub fn find(&self, token_index: TokenIndex) -> (slot: Option<usize>)
        ensures
            match slot {
                Some(i) => spec_find(self@, token_index) == Some(i as int) && i < self@.len(),
                None => spec_find(self@, token_index) is None,
            },
    {
        let ghost p = |p: TokenPosition| p.is_active_for_token(token_index);
        let mut i: usize = 0;
        while i < self.slots.len()
            invariant
                i <= self.slots@.len(),
                p == |p: TokenPosition| p.is_active_for_token(token_index),
                forall|j: int| 0 <= j < i ==> !p(#[trigger] self.slots@[j]),
            decreases self.slots@.len() - i,
        {
            if self.slots[i].is_active_for_token(token_index) {
                proof {
                    lemma_first_index_is(self.slots@, p, i as int);
                }
                return Some(i);
            }
            i = i + 1;
        }
        proof {
            lemma_first_index_none(self.slots@, p);
        }
        None
    }

    /// The first vacant slot, if there is one.
    pub fn find_vacant(&self) -> (slot: Option<usize>)
        ensures
            match slot {
                Some(i) => spec_find_vacant(self@) == Some(i as int) && i < self@.len(),
                None => spec_find_vacant(self@) is None,
            },
    {
        let ghost p = |p: TokenPosition| !p.active;
        let mut i: usize = 0;
        while i < self.slots.len()
            invariant
                i <= self.slots@.len(),
                p == |p: TokenPosition| !p.active,
                forall|j: int| 0 <= j < i ==> !p(#[trigger] self.slots@[j]),
            decreases self.slots@.len() - i,
        {
            if !self.slots[i].is_active() {
                proof {
                    lemma_first_index_is(self.slots@, p, i as int);
                }
                return Some(i);
            }
            i = i + 1;
        }
        proof {
            lemma_first_index_none(self.slots@, p);
        }
        None
    }

    /// The active position of the token and its slot; a vacant slot is
    /// claimed where the account has none. Where no slot is vacant either,
    /// the ledger stays as it is and the call fails with
    /// `PositionLimitExceeded`.
    pub fn get_or_create(&mut self, token_index: TokenIndex) -> (r: Result<
        (TokenPosition, usize),
        MangoError,
    >)
        requires
            old(self).wf(),
        ensures
            final(self).wf(),
            final(self)@.len() == old(self)@.len(),
            match r {
                Ok((position, slot)) => {
                    &&& spec_get_or_create(old(self)@, token_index) == Ok::<
                        (Seq<TokenPosition>, int),
                        MangoError,
                    >((final(self)@, slot as int))
                    &&& slot < final(self)@.len()
                    &&& position == final(self)@[slot as int]
                    &&& position.is_active_for_token(token_index)
                },
                Err(e) => {
                    &&& spec_get_or_create(old(self)@, token_index) == Err::<
                        (Seq<TokenPosition>, int),
                        MangoError,
                    >(e)
                    &&& final(self)@ == old(self)@
                },
            },
    {
        proof {
            lemma_get_or_create(self@, token_index);
            lemma_find(self@, token_index);
        }
        match self.find(token_index) {
            Some(slot) => Ok((self.slots[slot], slot)),
            None => match self.find_vacant() {
                Some(slot) => {
                    let position = TokenPosition::fresh(token_index);
                    self.slots.set(slot, position);
                    Ok((position, slot))
                },
                None => Err(MangoError::PositionLimitExceeded),
            },
        }
    }

    /// Replaces the balance of an active position.
    pub fn set_amount(&mut self, slot: usize, amount: I80F48)
        requires
            old(self).wf(),
            slot < old(self)@.len(),
            old(self)@[slot as int].active,
        ensures
            final(self).wf(),
            final(self)@ == old(self)@.update(
                slot as int,
                TokenPosition { amount, ..old(self)@[slot as int] },
            ),
    {
        let position = self.slots[slot];
        self.slots.set(slot, TokenPosition { amount, ..position });
    }

    /// Marks a slot vacant. The caller has seen that its balance is zero;
    /// the ledger does not look again.
    pub fn deactivate(&mut self, slot: usize)
        requires
            old(self).wf(),
            slot < old(self)@.len(),
            old(self)@[slot as int].amount@ == 0,
        ensures
            final(self).wf(),
            final(self)@ == old(self)@.update(
                slot as int,
                TokenPosition { active: false, ..old(self)@[slot as int] },
            ),
    {
        let position = self.slots[slot];
        self.slots.set(slot, TokenPosition { active: false, ..position });
    }
}

/// What an account is, as plain values.
pub struct MangoAccountView {
    pub group: Pubkey,
    pub owner: Pubkey,
    pub tokens: Seq<TokenPosition>,
    pub is_bankrupt: bool,
}

/// A user's account in a group.
#[derive(Debug, PartialEq, Eq)]
pub struct MangoAccount {
    /// The group that the account belongs to.
    pub group: Pubkey,
    /// Who may sign for the account.
    pub owner: Pubkey,
    /// The account's token positions.
    pub tokens: PositionLedger,
    /// While set, no ordinary operation may change the account's balances.
    pub is_bankrupt: bool,
}

impl View for MangoAccount {
    type V = MangoAccountView;

    open spec fn view(&self) -> MangoAccountView {
        MangoAccountView {
            group: self.group,
            owner: self.owner,
            tokens: self.tokens@,
            is_bankrupt: self.is_bankrupt,
        }
    }
}

impl Clone for MangoAccount {
    fn clone(&self) -> (copy: MangoAccount)
        ensures
            copy@ == self@,
    {
        MangoAccount {
            group: self.group,
            owner: self.owner,
            tokens: self.tokens.clone(),
            is_bankrupt: self.is_bankrupt,
        }
    }
}

impl MangoAccount {
    pub open spec fn wf(&self) -> bool {
        self.tokens.wf()
    }

    /// An account without positions and `capacity` slots for them.
    pub fn new(group: Pubkey, owner: Pubkey, capacity: usize) -> (account: MangoAccount)
        ensures
            account@ == (MangoAccountView {
                group,
                owner,
                tokens: spec_vacant_slots(capacity as nat),
                is_bankrupt: false,
            }),
            account.wf(),
            is_settled(account.tokens@),
    {
        MangoAccount { group, owner, tokens: PositionLedger::new(capacity), is_bankrupt: false }
    }
}

} // verus!
