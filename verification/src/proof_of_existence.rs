//! The proof-of-existence pallet: a registry in which a piece of content has
//! at most one owner, who alone can give the claim up.

use crate::support::{Dispatch, DispatchError, DispatchResult};
use crate::table::Table;
use crate::types::{AccountId, Content};
use vstd::prelude::*;

verus! {

/// Whether `content` can be claimed in the registry `m`, and why not if it
/// cannot.
pub open spec fn create_result(m: Map<Seq<char>, Seq<char>>, content: Seq<char>) -> DispatchResult {
    if m.contains_key(content) {
        Err(DispatchError::AlreadyClaimed)
    } else {
        Ok(())
    }
}

/// The registry after `caller` tried to claim `content`.
pub open spec fn after_create(
    m: Map<Seq<char>, Seq<char>>,
    caller: Seq<char>,
    content: Seq<char>,
) -> Map<Seq<char>, Seq<char>> {
    if m.contains_key(content) {
        m
    } else {
        m.insert(content, caller)
    }
}

/// Whether `caller` can give up the claim on `content` in the registry `m`,
/// and why not if it cannot.
pub open spec fn revoke_result(
    m: Map<Seq<char>, Seq<char>>,
    caller: Seq<char>,
    content: Seq<char>,
) -> DispatchResult {
    if !m.contains_key(content) {
        Err(DispatchError::ClaimNotFound)
    } else if m[content] != caller {
        Err(DispatchError::NotOwner)
    } else {
        Ok(())
    }
}

/// The registry after `caller` tried to give up the claim on `content`.
pub open spec fn after_revoke(
    m: Map<Seq<char>, Seq<char>>,
    caller: Seq<char>,
    content: Seq<char>,
) -> Map<Seq<char>, Seq<char>> {
    if revoke_result(m, caller, content) is Ok {
        m.remove(content)
    } else {
        m
    }
}

/// The operations of this pallet that an extrinsic can ask for.
#[derive(Debug)]
pub enum Call {
    /// Claim the content for the caller.
    CreateClaim { claim: Content },
    /// Give up the caller's claim on the content.
    RevokeClaim { claim: Content },
}

/// The outcome of `call` made by `caller` on the registry `m`.
pub open spec fn call_result(m: Map<Seq<char>, Seq<char>>, caller: Seq<char>, call: Call) -> DispatchResult {
    match call {
        Call::CreateClaim { claim } => create_result(m, claim@),
        Call::RevokeClaim { claim } => revoke_result(m, caller, claim@),
    }
}

/// The registry after `call` made by `caller` on the registry `m`.
pub open spec fn after_call(m: Map<Seq<char>, Seq<char>>, caller: Seq<char>, call: Call) -> Map<
    Seq<char>,
    Seq<char>,
> {
    match call {
        Call::CreateClaim { claim } => after_create(m, caller, claim@),
        Call::RevokeClaim { claim } => after_revoke(m, caller, claim@),
    }
}

/// The owner that the registry `m` records for `content`, if any.
pub open spec fn owner_of(m: Map<Seq<char>, Seq<char>>, content: Seq<char>) -> Option<Seq<char>> {
    if m.contains_key(content) {
        Some(m[content])
    } else {
        None
    }
}

/// Claiming unclaimed content succeeds and makes the caller its owner; a
/// further claim on it, by anyone, fails and leaves the owner as it is.
pub proof fn lemma_claim_is_exclusive(
    m: Map<Seq<char>, Seq<char>>,
    caller: Seq<char>,
    content: Seq<char>,
    later: Seq<char>,
)
    requires
        !m.contains_key(content),
    ensures
        create_result(m, content) is Ok,
        owner_of(after_create(m, caller, content), content) == Some(caller),
        create_result(after_create(m, caller, content), content) == Err::<(), DispatchError>(
            DispatchError::AlreadyClaimed,
        ),
        after_create(after_create(m, caller, content), later, content) == after_create(
            m,
            caller,
            content,
        ),
{
}

/// Claiming content leaves every other claim as it was.
pub proof fn lemma_claim_keeps_others(
    m: Map<Seq<char>, Seq<char>>,
    caller: Seq<char>,
    content: Seq<char>,
    other: Seq<char>,
)
    requires
        other != content,
    ensures
        owner_of(after_create(m, caller, content), other) == owner_of(m, other),
{
}

/// Revoking a claim that someone else owns fails, and the claim stays with
/// its owner.
pub proof fn lemma_revoke_by_stranger(
    m: Map<Seq<char>, Seq<char>>,
    caller: Seq<char>,
    content: Seq<char>,
)
    requires
        m.contains_key(content),
        m[content] != caller,
    ensures
        revoke_result(m, caller, content) == Err::<(), DispatchError>(DispatchError::NotOwner),
        after_revoke(m, caller, content) == m,
{
}

/// Revoking a claim on content that nobody owns fails and changes nothing.
pub proof fn lemma_revoke_unclaimed(
    m: Map<Seq<char>, Seq<char>>,
    caller: Seq<char>,
    content: Seq<char>,
)
    requires
        !m.contains_key(content),
    ensures
        revoke_result(m, caller, content) == Err::<(), DispatchError>(
            DispatchError::ClaimNotFound,
        ),
        after_revoke(m, caller, content) == m,
{
}

/// Revoking a claim by its owner succeeds and leaves the content unclaimed,
/// and every other claim as it was.
pub proof fn lemma_revoke_by_owner(
    m: Map<Seq<char>, Seq<char>>,
    caller: Seq<char>,
    content: Seq<char>,
    other: Seq<char>,
)
    requires
        m.contains_key(content),
        m[content] == caller,
    ensures
        revoke_result(m, caller, content) is Ok,
        owner_of(after_revoke(m, caller, content), content) is None,
        other != content ==> owner_of(after_revoke(m, caller, content), other) == owner_of(
            m,
            other,
        ),
{
}

/// The owner of every piece of content that is claimed.
#[derive(Debug)]
pub struct Pallet {
    claims: Table<AccountId>,
}

impl View for Pallet {
    type V = Map<Seq<char>, Seq<char>>;

    closed spec fn view(&self) -> Map<Seq<char>, Seq<char>> {
        self.claims@.map_values(|owner: AccountId| owner@)
    }
}

impl Pallet {
    /// A registry in which nothing is claimed.
    pub fn new() -> (p: Self)
        ensures
            p@ == Map::<Seq<char>, Seq<char>>::empty(),
    {
        let p = Pallet { claims: Table::new() };
        assert(p@ =~= Map::<Seq<char>, Seq<char>>::empty());
        p
    }

    /// The owner of `claim`, if it has one.
    pub fn get_claim(&self, claim: &Content) -> (owner: Option<&AccountId>)
        ensures
            match owner {
                Some(o) => owner_of(self@, claim@) == Some(o@),
                None => owner_of(self@, claim@) is None,
            },
    {
        self.claims.get(claim)
    }

    /// Records `caller` as the owner of `claim`, unless it has one already.
    pub fn create_claim(&mut self, caller: AccountId, claim: Content) -> (r: DispatchResult)
        ensures
            r == create_result(old(self)@, claim@),
            final(self)@ == after_create(old(self)@, caller@, claim@),
    {
        if self.claims.contains_key(&claim) {
            return Err(DispatchError::AlreadyClaimed);
        }
        self.claims.insert(claim, caller);
        assert(self@ =~= old(self)@.insert(claim@, caller@));
        Ok(())
    }

    /// Removes the claim on `claim`, provided `caller` owns it.
    pub fn revoke_claim(&mut self, caller: AccountId, claim: Content) -> (r: DispatchResult)
        ensures
            r == revoke_result(old(self)@, caller@, claim@),
            final(self)@ == after_revoke(old(self)@, caller@, claim@),
    {
        match self.claims.get(&claim) {
            None => {
                return Err(DispatchError::ClaimNotFound);
            },
            Some(owner) => {
                if !(*owner == caller) {
                    return Err(DispatchError::NotOwner);
                }
            },
        }
        self.claims.remove(&claim);
        assert(self@ =~= old(self)@.remove(claim@));
        Ok(())
    }

}

impl Dispatch for Pallet {
    type Caller = AccountId;

    type Call = Call;

    /// Carries out `call` on behalf of `caller` and hands its outcome on.
    fn dispatch(&mut self, caller: AccountId, call: Call) -> (r: DispatchResult)
        ensures
            r == call_result(old(self)@, caller@, call),
            final(self)@ == after_call(old(self)@, caller@, call),
    {
        match call {
            Call::CreateClaim { claim } => self.create_claim(caller, claim),
            Call::RevokeClaim { claim } => self.revoke_claim(caller, claim),
        }
    }
}

} // verus!
