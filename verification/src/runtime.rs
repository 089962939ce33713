//! The runtime: one instance of each pallet, the calls it routes to them, and
//! the execution of a block.

use crate::balances;
use crate::proof_of_existence;
use crate::support::{BlockError, Dispatch, DispatchError, DispatchResult};
use crate::system;
use crate::system::nonce_of;
use crate::types::{AccountId, Block, BlockNumber, Extrinsic};
use vstd::prelude::*;

verus! {

/// Every operation that an extrinsic can ask of the runtime.
#[derive(Debug)]
pub enum RuntimeCall {
    BalanceTransfer(balances::Call),
    ProofOfExistence(proof_of_existence::Call),
}

/// The whole state of the ledger.
#[derive(Debug)]
pub struct Runtime {
    pub system: system::Pallet,
    pub balances: balances::Pallet,
    pub proof_of_existence: proof_of_existence::Pallet,
}

/// An extrinsic that failed while its block went on: the block's number, the
/// extrinsic's position in the block, and the reason.
#[derive(Clone, Copy, Debug, PartialEq, Eq, Structural)]
pub struct ExtrinsicFailure {
    pub block_number: BlockNumber,
    pub index: usize,
    pub error: DispatchError,
}

/// The state of a runtime as mathematics sees it.
pub ghost struct State {
    pub height: u32,
    pub nonces: Map<Seq<char>, u32>,
    pub balances: Map<Seq<char>, u128>,
    pub claims: Map<Seq<char>, Seq<char>>,
}

impl View for Runtime {
    type V = State;

    open spec fn view(&self) -> State {
        State {
            height: self.system.height(),
            nonces: self.system.nonces(),
            balances: self.balances@,
            claims: self.proof_of_existence@,
        }
    }
}

/// The outcome of `call` made by `caller` in state `s`.
pub open spec fn call_result(s: State, caller: Seq<char>, call: RuntimeCall) -> DispatchResult {
    match call {
        RuntimeCall::BalanceTransfer(c) => balances::call_result(s.balances, caller, c),
        RuntimeCall::ProofOfExistence(c) => proof_of_existence::call_result(s.claims, caller, c),
    }
}

/// The state after `call` made by `caller` in state `s`: only the pallet that
/// owns the call can change.
pub open spec fn after_call(s: State, caller: Seq<char>, call: RuntimeCall) -> State {
    match call {
        RuntimeCall::BalanceTransfer(c) => State {
            balances: balances::after_call(s.balances, caller, c),
            ..s
        },
        RuntimeCall::ProofOfExistence(c) => State {
            claims: proof_of_existence::after_call(s.claims, caller, c),
            ..s
        },
    }
}

/// The state `s` with the nonce of `caller` raised by one.
pub open spec fn bump_nonce(s: State, caller: Seq<char>) -> State {
    State { nonces: s.nonces.insert(caller, (nonce_of(s.nonces, caller) + 1) as u32), ..s }
}

/// The state after the extrinsic `e` was attempted in state `s`: the caller's
/// nonce is raised whether or not the call goes through.
pub open spec fn after_extrinsic(s: State, e: Extrinsic) -> State {
    after_call(bump_nonce(s, e.caller@), e.caller@, e.call)
}

/// The state after the extrinsics `exts` were attempted in order from `s`.
pub open spec fn after_extrinsics(s: State, exts: Seq<Extrinsic>) -> State
    decreases exts.len(),
{
    if exts.len() == 0 {
        s
    } else {
        after_extrinsic(after_extrinsics(s, exts.drop_last()), exts.last())
    }
}

/// The failures among the extrinsics `exts` attempted in order from `s`, each
/// with its position, in the order in which they occur.
pub open spec fn failures(s: State, exts: Seq<Extrinsic>) -> Seq<ExtrinsicFailure>
    decreases exts.len(),
{
    if exts.len() == 0 {
        Seq::empty()
    } else {
        let before = after_extrinsics(s, exts.drop_last());
        let earlier = failures(s, exts.drop_last());
        match call_result(before, exts.last().caller@, exts.last().call) {
            Ok(_) => earlier,
            Err(error) => earlier.push(
                (ExtrinsicFailure {
                    block_number: s.height,
                    index: (exts.len() - 1) as usize,
                    error,
                }),
            ),
        }
    }
}

/// How many of the extrinsics `exts` were submitted by `who`.
pub open spec fn submitted_by(exts: Seq<Extrinsic>, who: Seq<char>) -> nat
    decreases exts.len(),
{
    if exts.len() == 0 {
        0
    } else {
        submitted_by(exts.drop_last(), who) + (if exts.last().caller@ == who {
            1nat
        } else {
            0nat
        })
    }
}

/// Every account's nonce can take the extrinsics `exts` it submits.
pub open spec fn nonces_fit(s: State, exts: Seq<Extrinsic>) -> bool {
    forall|who: Seq<char>| nonce_of(s.nonces, who) + #[trigger] submitted_by(exts, who) <= u32::MAX
}

/// The state `s` one block higher.
pub open spec fn next_height(s: State) -> State {
    State { height: (s.height + 1) as u32, ..s }
}

/// Whether `block` continues the chain from state `s`: it declares the height
/// that follows the current one.
pub open spec fn block_fits(s: State, block: Block) -> bool {
    block.header.block_number == s.height + 1
}

/// The state after `block` was handed to a runtime in state `s`. The height
/// rises in any case; the extrinsics are attempted only if the block fits.
pub open spec fn after_block(s: State, block: Block) -> State {
    if block_fits(s, block) {
        after_extrinsics(next_height(s), block.extrinsics@)
    } else {
        next_height(s)
    }
}

/// A call that fails changes nothing.
pub proof fn lemma_failed_call_changes_nothing(s: State, caller: Seq<char>, call: RuntimeCall)
    requires
        call_result(s, caller, call) is Err,
    ensures
        after_call(s, caller, call) == s,
{
}

/// An extrinsic whose call fails changes nothing but its caller's nonce,
/// which rises by one.
pub proof fn lemma_failed_extrinsic_raises_only_nonce(s: State, e: Extrinsic)
    requires
        call_result(s, e.caller@, e.call) is Err,
    ensures
        after_extrinsic(s, e) == bump_nonce(s, e.caller@),
{
}

/// A prefix of a list of extrinsics holds no more extrinsics of `who` than
/// the whole list.
pub proof fn lemma_submitted_by_prefix(exts: Seq<Extrinsic>, n: int, who: Seq<char>)
    requires
        0 <= n <= exts.len(),
    ensures
        submitted_by(exts.take(n), who) <= submitted_by(exts, who),
    decreases exts.len(),
{
    if n == exts.len() {
        assert(exts.take(n) =~= exts);
    } else {
        assert(exts.take(n) =~= exts.drop_last().take(n));
        lemma_submitted_by_prefix(exts.drop_last(), n, who);
    }
}

/// Attempting extrinsics leaves the height as it is.
pub proof fn lemma_extrinsics_keep_height(s: State, exts: Seq<Extrinsic>)
    ensures
        after_extrinsics(s, exts).height == s.height,
    decreases exts.len(),
{
    if exts.len() > 0 {
        lemma_extrinsics_keep_height(s, exts.drop_last());
    }
}

/// After a list of extrinsics was attempted, the nonce of `who` has risen by
/// the number of extrinsics in the list that `who` submitted, whatever became
/// of each of them.
pub proof fn lemma_nonce_counts_submissions(s: State, exts: Seq<Extrinsic>, who: Seq<char>)
    requires
        nonce_of(s.nonces, who) + submitted_by(exts, who) <= u32::MAX,
    ensures
        nonce_of(after_extrinsics(s, exts).nonces, who) == nonce_of(s.nonces, who) + submitted_by(
            exts,
            who,
        ),
    decreases exts.len(),
{
    if exts.len() > 0 {
        lemma_nonce_counts_submissions(s, exts.drop_last(), who);
    }
}

/// After a block that fits was executed, the nonce of `who` has risen by the
/// number of the block's extrinsics that `who` submitted, whatever became of
/// each of them.
pub proof fn lemma_block_nonce(s: State, block: Block, who: Seq<char>)
    requires
        block_fits(s, block),
        nonce_of(s.nonces, who) + submitted_by(block.extrinsics@, who) <= u32::MAX,
    ensures
        nonce_of(after_block(s, block).nonces, who) == nonce_of(s.nonces, who) + submitted_by(
            block.extrinsics@,
            who,
        ),
{
    lemma_nonce_counts_submissions(next_height(s), block.extrinsics@, who);
}

/// An account that submitted none of the extrinsics is counted zero times.
pub proof fn lemma_absent_caller_submits_nothing(exts: Seq<Extrinsic>, who: Seq<char>)
    requires
        forall|j: int| 0 <= j < exts.len() ==> (#[trigger] exts[j]).caller@ != who,
    ensures
        submitted_by(exts, who) == 0,
    decreases exts.len(),
{
    if exts.len() > 0 {
        assert(exts.last() == exts[exts.len() - 1]);
        assert forall|j: int| 0 <= j < exts.drop_last().len() implies (#[trigger] exts.drop_last()[j]).caller@
            != who by {
            assert(exts.drop_last()[j] == exts[j]);
        }
        lemma_absent_caller_submits_nothing(exts.drop_last(), who);
    }
}

/// How many of the extrinsics `exts` were submitted by `who`.
pub fn count_submitted(exts: &Vec<Extrinsic>, who: &AccountId) -> (n: usize)
    ensures
        n == submitted_by(exts@, who@),
{
    let mut n: usize = 0;
    let mut i: usize = 0;
    while i < exts.len()
        invariant
            i <= exts@.len(),
            n <= i,
            n == submitted_by(exts@.take(i as int), who@),
        decreases exts@.len() - i,
    {
        proof {
            assert(exts@.take(i + 1).drop_last() =~= exts@.take(i as int));
            assert(exts@.take(i + 1).last() == exts@[i as int]);
        }
        if exts[i].caller == *who {
            n = n + 1;
        }
        i = i + 1;
    }
    proof {
        assert(exts@.take(i as int) =~= exts@);
    }
    n
}

impl Dispatch for Runtime {
    type Caller = AccountId;

    type Call = RuntimeCall;

    /// Routes `call` to the pallet that owns it and hands its outcome on.
    fn dispatch(&mut self, caller: AccountId, call: RuntimeCall) -> (r: DispatchResult)
        ensures
            r == call_result(old(self)@, caller@, call),
            final(self)@ == after_call(old(self)@, caller@, call),
    {
        match call {
            RuntimeCall::BalanceTransfer(c) => self.balances.dispatch(caller, c),
            RuntimeCall::ProofOfExistence(c) => self.proof_of_existence.dispatch(caller, c),
        }
    }
}

impl Runtime {
    /// A runtime at height zero with no balances, nonces or claims.
    pub fn new() -> (rt: Self)
        ensures
            rt@.height == 0,
            rt@.nonces == Map::<Seq<char>, u32>::empty(),
            rt@.balances == Map::<Seq<char>, u128>::empty(),
            rt@.claims == Map::<Seq<char>, Seq<char>>::empty(),
    {
        Runtime {
            system: system::Pallet::new(),
            balances: balances::Pallet::new(),
            proof_of_existence: proof_of_existence::Pallet::new(),
        }
    }

    /// Whether every account's nonce can take the extrinsics of `exts` that
    /// the account submitted.
    pub fn nonces_have_room(&self, exts: &Vec<Extrinsic>) -> (ok: bool)
        ensures
            ok == nonces_fit(self@, exts@),
    {
        let mut i: usize = 0;
        while i < exts.len()
            invariant
                i <= exts@.len(),
                forall|j: int|
                    0 <= j < i ==> nonce_of(self@.nonces, (#[trigger] exts@[j]).caller@)
                        + submitted_by(exts@, exts@[j].caller@) <= u32::MAX,
            decreases exts@.len() - i,
        {
            let submitted = count_submitted(exts, &exts[i].caller);
            let nonce = self.system.nonce(&exts[i].caller);
            if submitted > (u32::MAX - nonce) as usize {
                assert(nonce_of(self@.nonces, exts@[i as int].caller@) + submitted_by(
                    exts@,
                    exts@[i as int].caller@,
                ) > u32::MAX);
                return false;
            }
            i = i + 1;
        }
        proof {
            assert forall|who: Seq<char>|
                nonce_of(self@.nonces, who) + #[trigger] submitted_by(exts@, who)
                    <= u32::MAX by {
                if exists|j: int| 0 <= j < exts@.len() && (#[trigger] exts@[j]).caller@ == who {
                    let j = choose|j: int| 0 <= j < exts@.len() && (#[trigger] exts@[j]).caller@ == who;
                    assert(nonce_of(self@.nonces, exts@[j].caller@) + submitted_by(
                        exts@,
                        exts@[j].caller@,
                    ) <= u32::MAX);
                } else {
                    lemma_absent_caller_submits_nothing(exts@, who);
                }
            }
        }
        true
    }

    /// Whether `block` can be executed: the height can still rise, and, if
    /// the block fits, so can the nonce of each of its callers.
    pub fn can_execute(&self, block: &Block) -> (ok: bool)
        ensures
            ok == (self@.height < u32::MAX && (block_fits(self@, *block) ==> nonces_fit(
                self@,
                block.extrinsics@,
            ))),
    {
        let height = self.system.block_number();
        if height == u32::MAX {
            return false;
        }
        if block.header.block_number != height + 1 {
            return true;
        }
        self.nonces_have_room(&block.extrinsics)
    }

    /// Executes `block`. The height rises by one. A block that does not
    /// declare the new height is refused and nothing else changes. Otherwise
    /// each extrinsic is attempted in order: its caller's nonce rises, and a
    /// call that fails is reported and changes nothing more, while the block
    /// goes on.
    pub fn execute_block(&mut self, block: Block) -> (r: Result<Vec<ExtrinsicFailure>, BlockError>)
        requires
            old(self)@.height < u32::MAX,
            block_fits(old(self)@, block) ==> nonces_fit(old(self)@, block.extrinsics@),
        ensures
            final(self)@ == after_block(old(self)@, block),
            final(self)@.height == old(self)@.height + 1,
            block_fits(old(self)@, block) ==> r is Ok && r->Ok_0@ == failures(
                next_height(old(self)@),
                block.extrinsics@,
            ),
            block_fits(old(self)@, block) ==> forall|who: Seq<char>|
                nonce_of(final(self)@.nonces, who) == nonce_of(old(self)@.nonces, who)
                    + #[trigger] submitted_by(block.extrinsics@, who),
            !block_fits(old(self)@, block) ==> r == Err::<Vec<ExtrinsicFailure>, BlockError>(
                BlockError::InvalidBlockNumber,
            ) && final(self)@.nonces == old(self)@.nonces && final(self)@.balances == old(
                self,
            )@.balances && final(self)@.claims == old(self)@.claims,
    {
        self.system.inc_block_number();
        let number = block.header.block_number;
        if number != self.system.block_number() {
            return Err(BlockError::InvalidBlockNumber);
        }
        let ghost start = self@;
        let ghost exts = block.extrinsics@;
        let mut reports: Vec<ExtrinsicFailure> = Vec::new();
        let total = block.extrinsics.len();
        let mut index: usize = 0;
        for extrinsic in it: block.extrinsics.into_iter()
            invariant
                it.seq() == exts,
                exts.len() == total,
                index == it.index(),
                nonces_fit(start, exts),
                self@ == after_extrinsics(start, exts.take(index as int)),
                reports@ == failures(start, exts.take(index as int)),
                start.height == number,
        {
            let ghost done = exts.take(index as int);
            let ghost now = exts.take(index + 1);
            proof {
                assert(index < exts.len());
                assert(now.drop_last() =~= done);
                assert(now.last() == extrinsic);
                lemma_submitted_by_prefix(exts, index + 1, extrinsic.caller@);
                lemma_nonce_counts_submissions(start, done, extrinsic.caller@);
            }
            let Extrinsic { caller, call } = extrinsic;
            self.system.inc_nonce(&caller);
            match self.dispatch(caller, call) {
                Ok(_) => {},
                Err(error) => {
                    reports.push(ExtrinsicFailure { block_number: number, index, error });
                },
            }
            index = index + 1;
        }
        proof {
            assert(exts.take(index as int) =~= exts);
            lemma_extrinsics_keep_height(start, exts);
            assert forall|who: Seq<char>|
                nonce_of(self@.nonces, who) == nonce_of(start.nonces, who) + #[trigger] submitted_by(
                    exts,
                    who,
                ) by {
                lemma_nonce_counts_submissions(start, exts, who);
            }
        }
        Ok(reports)
    }
}

} // verus!
