use rust_state_machine::system::Pallet;

#[test]
fn init_system() {
    let mut system = Pallet::new();
    system.inc_block_number();
    system.inc_nonce(&"alice".to_string());
    system.inc_nonce(&"bob".to_string());
    assert_eq!(system.block_number(), 1);
    assert_eq!(system.nonce(&"alice".to_string()), 1);
    assert_eq!(system.nonce(&"bob".to_string()), 1);
}

#[test]
fn nonce_counts_each_accounts_calls() {
    let mut system = Pallet::new();
    assert_eq!(system.nonce(&"alice".to_string()), 0);
    for i in 0..5 {
        system.inc_nonce(&"alice".to_string());
        if i % 2 == 0 {
            system.inc_nonce(&"bob".to_string());
        }
    }
    assert_eq!(system.nonce(&"alice".to_string()), 5);
    assert_eq!(system.nonce(&"bob".to_string()), 3);
    assert_eq!(system.block_number(), 0);
}

#[test]
fn block_number_advances_by_one() {
    let mut system = Pallet::new();
    assert_eq!(system.block_number(), 0);
    system.inc_block_number();
    system.inc_block_number();
    system.inc_block_number();
    assert_eq!(system.block_number(), 3);
}
