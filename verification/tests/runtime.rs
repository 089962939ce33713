use state_machine::balances;
use state_machine::proof_of_existence;
use state_machine::runtime::{count_submitted, ExtrinsicFailure};
use state_machine::support::{BlockError, Dispatch, DispatchError};
use state_machine::types::{Block, Extrinsic, Header};
use state_machine::{Runtime, RuntimeCall};

fn transfer(caller: &str, receiver: &str, amount: u128) -> Extrinsic {
    Extrinsic {
        caller: caller.to_string(),
        call: RuntimeCall::BalanceTransfer(balances::Call::Transfer {
            receiver: receiver.to_string(),
            amount,
        }),
    }
}

fn create_claim(caller: &str, claim: &str) -> Extrinsic {
    Extrinsic {
        caller: caller.to_string(),
        call: RuntimeCall::ProofOfExistence(proof_of_existence::Call::CreateClaim {
            claim: claim.to_string(),
        }),
    }
}

fn revoke_claim(caller: &str, claim: &str) -> Extrinsic {
    Extrinsic {
        caller: caller.to_string(),
        call: RuntimeCall::ProofOfExistence(proof_of_existence::Call::RevokeClaim {
            claim: claim.to_string(),
        }),
    }
}

fn block(number: u32, extrinsics: Vec<Extrinsic>) -> Block {
    Block { header: Header { block_number: number }, extrinsics }
}

#[test]
fn fresh_runtime_is_empty() {
    let rt = Runtime::new();
    assert_eq!(rt.system.block_number(), 0);
    assert_eq!(rt.system.nonce(&"alice".to_string()), 0);
    assert_eq!(rt.balances.balance(&"alice".to_string()), 0);
    assert_eq!(rt.proof_of_existence.get_claim(&"x".to_string()), None);
}

#[test]
fn block_of_transfers() {
    let mut rt = Runtime::new();
    rt.balances.set_balance(&"alice".to_string(), 100);
    let b = block(1, vec![transfer("alice", "bob", 30), transfer("alice", "charlie", 20)]);
    assert!(rt.can_execute(&b));
    assert_eq!(rt.execute_block(b), Ok(vec![]));
    assert_eq!(rt.balances.balance(&"alice".to_string()), 50);
    assert_eq!(rt.balances.balance(&"bob".to_string()), 30);
    assert_eq!(rt.balances.balance(&"charlie".to_string()), 20);
    assert_eq!(rt.system.nonce(&"alice".to_string()), 2);
    assert_eq!(rt.system.nonce(&"bob".to_string()), 0);
    assert_eq!(rt.system.block_number(), 1);
}

#[test]
fn block_of_claims() {
    let mut rt = Runtime::new();
    let b = block(
        1,
        vec![
            create_claim("alice", "x"),
            revoke_claim("bob", "x"),
            revoke_claim("alice", "x"),
            create_claim("bob", "y"),
        ],
    );
    assert!(rt.can_execute(&b));
    let reports = rt.execute_block(b);
    assert_eq!(
        reports,
        Ok(vec![ExtrinsicFailure { block_number: 1, index: 1, error: DispatchError::NotOwner }])
    );
    assert_eq!(rt.proof_of_existence.get_claim(&"x".to_string()), None);
    assert_eq!(rt.proof_of_existence.get_claim(&"y".to_string()), Some(&"bob".to_string()));
    assert_eq!(rt.system.nonce(&"alice".to_string()), 2);
    assert_eq!(rt.system.nonce(&"bob".to_string()), 2);
}

#[test]
fn failed_extrinsics_still_raise_the_nonce() {
    let mut rt = Runtime::new();
    rt.balances.set_balance(&"alice".to_string(), 10);
    let b = block(
        1,
        vec![
            transfer("alice", "bob", 11),
            transfer("bob", "alice", 1),
            transfer("alice", "bob", 10),
            transfer("alice", "bob", 1),
            revoke_claim("alice", "nothing"),
        ],
    );
    assert_eq!(count_submitted(&b.extrinsics, &"alice".to_string()), 4);
    assert_eq!(count_submitted(&b.extrinsics, &"bob".to_string()), 1);
    assert_eq!(count_submitted(&b.extrinsics, &"charlie".to_string()), 0);
    assert!(rt.can_execute(&b));
    let reports = rt.execute_block(b).unwrap();
    assert_eq!(
        reports,
        vec![
            ExtrinsicFailure { block_number: 1, index: 0, error: DispatchError::InsufficientFunds },
            ExtrinsicFailure { block_number: 1, index: 1, error: DispatchError::InsufficientFunds },
            ExtrinsicFailure { block_number: 1, index: 3, error: DispatchError::InsufficientFunds },
            ExtrinsicFailure { block_number: 1, index: 4, error: DispatchError::ClaimNotFound },
        ]
    );
    assert_eq!(rt.system.nonce(&"alice".to_string()), 4);
    assert_eq!(rt.system.nonce(&"bob".to_string()), 1);
    assert_eq!(rt.balances.balance(&"alice".to_string()), 0);
    assert_eq!(rt.balances.balance(&"bob".to_string()), 10);
}

#[test]
fn block_with_wrong_number_is_refused() {
    let mut rt = Runtime::new();
    rt.balances.set_balance(&"alice".to_string(), 100);
    let first = block(1, vec![create_claim("alice", "x"), transfer("alice", "bob", 1)]);
    assert!(rt.can_execute(&first));
    assert_eq!(rt.execute_block(first), Ok(vec![]));

    let stale = block(1, vec![transfer("alice", "bob", 30), revoke_claim("alice", "x")]);
    assert!(rt.can_execute(&stale));
    let r = rt.execute_block(stale);
    assert_eq!(r, Err(BlockError::InvalidBlockNumber));
    assert_eq!(r.map_err(|e| e.message()), Err("Invalid block number"));
    assert_eq!(rt.balances.balance(&"alice".to_string()), 99);
    assert_eq!(rt.balances.balance(&"bob".to_string()), 1);
    assert_eq!(rt.proof_of_existence.get_claim(&"x".to_string()), Some(&"alice".to_string()));
    assert_eq!(rt.system.nonce(&"alice".to_string()), 2);
    assert_eq!(rt.system.block_number(), 2);
}

#[test]
fn block_that_matches_the_old_height_is_refused() {
    let mut rt = Runtime::new();
    let b = block(0, vec![create_claim("alice", "x")]);
    assert!(rt.can_execute(&b));
    assert_eq!(rt.execute_block(b), Err(BlockError::InvalidBlockNumber));
    assert_eq!(rt.proof_of_existence.get_claim(&"x".to_string()), None);
    assert_eq!(rt.system.nonce(&"alice".to_string()), 0);
}

#[test]
fn empty_block_only_raises_the_height() {
    let mut rt = Runtime::new();
    let b = block(1, vec![]);
    assert!(rt.can_execute(&b));
    assert_eq!(rt.execute_block(b), Ok(vec![]));
    assert_eq!(rt.system.block_number(), 1);
    let b = block(2, vec![]);
    assert_eq!(rt.execute_block(b), Ok(vec![]));
    assert_eq!(rt.system.block_number(), 2);
}

#[test]
fn runtime_dispatch_routes_to_the_owning_pallet() {
    let mut rt = Runtime::new();
    rt.balances.set_balance(&"alice".to_string(), 5);
    let e = transfer("alice", "bob", 6);
    assert_eq!(rt.dispatch(e.caller, e.call), Err(DispatchError::InsufficientFunds));
    let e = transfer("alice", "bob", 5);
    assert_eq!(rt.dispatch(e.caller, e.call), Ok(()));
    let e = create_claim("bob", "doc");
    assert_eq!(rt.dispatch(e.caller, e.call), Ok(()));
    let e = create_claim("alice", "doc");
    assert_eq!(rt.dispatch(e.caller, e.call), Err(DispatchError::AlreadyClaimed));
    assert_eq!(rt.balances.balance(&"bob".to_string()), 5);
    assert_eq!(rt.proof_of_existence.get_claim(&"doc".to_string()), Some(&"bob".to_string()));
    assert_eq!(rt.system.nonce(&"alice".to_string()), 0);
}

#[test]
fn fresh_nonces_have_room() {
    let mut rt = Runtime::new();
    let b = block(1, vec![create_claim("alice", "x")]);
    assert!(rt.nonces_have_room(&b.extrinsics));
    assert!(rt.nonces_have_room(&Vec::new()));
    assert!(rt.can_execute(&b));
}

#[test]
fn every_error_has_its_message() {
    assert_eq!(DispatchError::InsufficientFunds.message(), "Not Enough Funds.");
    assert_eq!(DispatchError::BalanceOverflow.message(), "Overflow Balance.");
    assert_eq!(DispatchError::AlreadyClaimed.message(), "this content is already claimed");
    assert_eq!(DispatchError::ClaimNotFound.message(), "Claim does not exist");
    assert_eq!(DispatchError::NotOwner.message(), "Claim does belong to caller");
    assert_eq!(BlockError::InvalidBlockNumber.message(), "Invalid block number");
}
