use rust_state_machine::proof_of_existence::Pallet;

#[test]
fn basic_proof_of_existence() {
    let mut pallet = Pallet::new();
    assert_eq!(pallet.get_claim(&"Hello, world!".to_string()), None);
    assert_eq!(pallet.create_claim("alice".to_string(), "Hello, world!".to_string()), Ok(()));
    assert_eq!(pallet.get_claim(&"Hello, world!".to_string()), Some(&"alice".to_string()));
    assert_eq!(
        pallet.create_claim("bob".to_string(), "Hello, world!".to_string()),
        Err("This claim has already been created")
    );
    assert_eq!(pallet.revoke_claim("alice".to_string(), "Hello, world!".to_string()), Ok(()));
    assert_eq!(pallet.create_claim("bob".to_string(), "Hello, world!".to_string()), Ok(()));
}

#[test]
fn second_claim_keeps_first_owner() {
    let mut pallet = Pallet::new();
    assert_eq!(pallet.create_claim("alice".to_string(), "doc".to_string()), Ok(()));
    assert!(pallet.create_claim("bob".to_string(), "doc".to_string()).is_err());
    assert_eq!(pallet.get_claim(&"doc".to_string()), Some(&"alice".to_string()));
}

#[test]
fn owner_may_hold_many_claims() {
    let mut pallet = Pallet::new();
    assert_eq!(pallet.create_claim("alice".to_string(), "one".to_string()), Ok(()));
    assert_eq!(pallet.create_claim("alice".to_string(), "two".to_string()), Ok(()));
    assert_eq!(pallet.get_claim(&"one".to_string()), Some(&"alice".to_string()));
    assert_eq!(pallet.get_claim(&"two".to_string()), Some(&"alice".to_string()));
}

#[test]
fn revoke_by_owner_unclaims() {
    let mut pallet = Pallet::new();
    assert_eq!(pallet.create_claim("alice".to_string(), "doc".to_string()), Ok(()));
    assert_eq!(pallet.revoke_claim("alice".to_string(), "doc".to_string()), Ok(()));
    assert_eq!(pallet.get_claim(&"doc".to_string()), None);
}

#[test]
fn revoke_by_other_fails_and_keeps_owner() {
    let mut pallet = Pallet::new();
    assert_eq!(pallet.create_claim("alice".to_string(), "doc".to_string()), Ok(()));
    assert_eq!(
        pallet.revoke_claim("bob".to_string(), "doc".to_string()),
        Err("Content does not match the caller")
    );
    assert_eq!(pallet.get_claim(&"doc".to_string()), Some(&"alice".to_string()));
}

#[test]
fn revoke_unclaimed_fails() {
    let mut pallet = Pallet::new();
    assert_eq!(
        pallet.revoke_claim("alice".to_string(), "doc".to_string()),
        Err("Claim does not exist")
    );
    assert_eq!(pallet.get_claim(&"doc".to_string()), None);
}
