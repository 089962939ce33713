use state_machine::proof_of_existence::{Call, Pallet};
use state_machine::support::{Dispatch, DispatchError};

#[test]
fn basic_proof_of_existence() {
    let mut poe = Pallet::new();
    assert_eq!(poe.get_claim(&"Hello, world!".to_string()), None);
    assert_eq!(poe.create_claim("alice".to_string(), "Hello, world!".to_string()), Ok(()));
    assert_eq!(poe.get_claim(&"Hello, world!".to_string()), Some(&"alice".to_string()));
    assert_eq!(
        poe.create_claim("bob".to_string(), "Hello, world!".to_string())
            .map_err(|e| e.message()),
        Err("this content is already claimed")
    );
    assert_eq!(poe.revoke_claim("alice".to_string(), "Hello, world!".to_string()), Ok(()));
    assert_eq!(poe.create_claim("bob".to_string(), "Hello, world!".to_string()), Ok(()));
}

#[test]
fn second_claim_keeps_the_first_owner() {
    let mut poe = Pallet::new();
    assert_eq!(poe.create_claim("alice".to_string(), "doc".to_string()), Ok(()));
    assert_eq!(
        poe.create_claim("bob".to_string(), "doc".to_string()),
        Err(DispatchError::AlreadyClaimed)
    );
    assert_eq!(
        poe.create_claim("alice".to_string(), "doc".to_string()),
        Err(DispatchError::AlreadyClaimed)
    );
    assert_eq!(poe.get_claim(&"doc".to_string()), Some(&"alice".to_string()));
}

#[test]
fn revoke_by_stranger_fails_and_claim_stays() {
    let mut poe = Pallet::new();
    assert_eq!(poe.create_claim("alice".to_string(), "doc".to_string()), Ok(()));
    let r = poe.revoke_claim("bob".to_string(), "doc".to_string());
    assert_eq!(r, Err(DispatchError::NotOwner));
    assert_eq!(r.map_err(|e| e.message()), Err("Claim does belong to caller"));
    assert_eq!(poe.get_claim(&"doc".to_string()), Some(&"alice".to_string()));
}

#[test]
fn revoke_by_owner_frees_the_content() {
    let mut poe = Pallet::new();
    assert_eq!(poe.create_claim("alice".to_string(), "doc".to_string()), Ok(()));
    assert_eq!(poe.create_claim("bob".to_string(), "other".to_string()), Ok(()));
    assert_eq!(poe.revoke_claim("alice".to_string(), "doc".to_string()), Ok(()));
    assert_eq!(poe.get_claim(&"doc".to_string()), None);
    assert_eq!(poe.get_claim(&"other".to_string()), Some(&"bob".to_string()));
}

#[test]
fn revoke_of_unclaimed_content_fails() {
    let mut poe = Pallet::new();
    let r = poe.revoke_claim("alice".to_string(), "doc".to_string());
    assert_eq!(r, Err(DispatchError::ClaimNotFound));
    assert_eq!(r.map_err(|e| e.message()), Err("Claim does not exist"));
    assert_eq!(poe.get_claim(&"doc".to_string()), None);
}

#[test]
fn claims_survive_removal_of_an_earlier_one() {
    let mut poe = Pallet::new();
    assert_eq!(poe.create_claim("alice".to_string(), "a".to_string()), Ok(()));
    assert_eq!(poe.create_claim("bob".to_string(), "b".to_string()), Ok(()));
    assert_eq!(poe.create_claim("carol".to_string(), "c".to_string()), Ok(()));
    assert_eq!(poe.revoke_claim("alice".to_string(), "a".to_string()), Ok(()));
    assert_eq!(poe.get_claim(&"a".to_string()), None);
    assert_eq!(poe.get_claim(&"b".to_string()), Some(&"bob".to_string()));
    assert_eq!(poe.get_claim(&"c".to_string()), Some(&"carol".to_string()));
    assert_eq!(poe.revoke_claim("bob".to_string(), "c".to_string()), Err(DispatchError::NotOwner));
}

#[test]
fn claims_dispatch_routes_both_calls() {
    let mut poe = Pallet::new();
    let r = poe.dispatch("alice".to_string(), Call::CreateClaim { claim: "doc".to_string() });
    assert_eq!(r, Ok(()));
    assert_eq!(poe.get_claim(&"doc".to_string()), Some(&"alice".to_string()));
    let r = poe.dispatch("bob".to_string(), Call::RevokeClaim { claim: "doc".to_string() });
    assert_eq!(r, Err(DispatchError::NotOwner));
    let r = poe.dispatch("alice".to_string(), Call::RevokeClaim { claim: "doc".to_string() });
    assert_eq!(r, Ok(()));
    assert_eq!(poe.get_claim(&"doc".to_string()), None);
}
