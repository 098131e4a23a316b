use anchor_lang::solana_program::pubkey::Pubkey as LedgerKey;
use social_recovery::authority::{derive_authority, signer_seeds};
use social_recovery::pubkey::Pubkey;

fn key(byte: u8) -> Pubkey {
    Pubkey::new_from_array([byte; 32])
}

fn ledger_address(program_id: &Pubkey, group: &Pubkey, nonce: u8) -> Option<[u8; 32]> {
    let program = LedgerKey::new_from_array(program_id.to_bytes());
    let group_bytes = group.to_bytes();
    let seeds: [&[u8]; 2] = [&group_bytes, &[nonce]];
    match LedgerKey::create_program_address(&seeds, &program) {
        Ok(address) => Some(address.to_bytes()),
        Err(_) => None,
    }
}

#[test]
fn derive_gives_the_known_address() {
    let expected: [u8; 32] = [
        57, 44, 89, 194, 17, 117, 211, 37, 224, 218, 158, 135, 137, 1, 8, 155, 199, 145, 143, 183,
        170, 81, 87, 48, 249, 196, 60, 181, 17, 15, 235, 94,
    ];
    let authority = derive_authority(&key(2), &key(1), 1);
    assert_eq!(authority, Some(Pubkey::new_from_array(expected)));
}

#[test]
fn derive_gives_none_where_the_nonce_has_no_address() {
    assert_eq!(derive_authority(&key(2), &key(1), 0), None);
    assert_eq!(derive_authority(&key(2), &key(1), 3), None);
}

#[test]
fn derive_agrees_with_the_ledger_for_every_nonce() {
    let program = key(2);
    let group = key(1);
    let mut found = 0;
    let mut missing = 0;
    for nonce in 0..=255u8 {
        let derived = derive_authority(&program, &group, nonce);
        let expected = ledger_address(&program, &group, nonce);
        assert_eq!(derived.map(|address| address.to_bytes()), expected);
        match derived {
            Some(_) => found += 1,
            None => missing += 1,
        }
    }
    assert_eq!(found, 121);
    assert_eq!(missing, 135);
}

#[test]
fn derive_is_deterministic() {
    let program = key(9);
    let group = key(4);
    for nonce in 0..=255u8 {
        let first = derive_authority(&program, &group, nonce);
        let second = derive_authority(&program, &group, nonce);
        assert_eq!(first, second);
        let same_bytes = derive_authority(
            &Pubkey::new_from_array([9; 32]),
            &Pubkey::new_from_array([4; 32]),
            nonce,
        );
        assert_eq!(first, same_bytes);
    }
}

#[test]
fn derive_returns_none_of_its_arguments() {
    let program = key(2);
    let group = key(1);
    let authority = derive_authority(&program, &group, 1).unwrap();
    assert_ne!(authority, program);
    assert_ne!(authority, group);
}

#[test]
fn derive_depends_on_each_argument() {
    let base = derive_authority(&key(2), &key(1), 1);
    assert!(base.is_some());
    assert_ne!(derive_authority(&key(2), &key(1), 2), base);
    assert_ne!(derive_authority(&key(2), &key(3), 1), base);
    assert_ne!(derive_authority(&key(5), &key(1), 1), base);
}

#[test]
fn signer_seeds_are_the_group_then_the_nonce() {
    let seeds = signer_seeds(&key(7), 200);
    assert_eq!(seeds, vec![vec![7u8; 32], vec![200u8]]);
}

#[test]
fn signer_seeds_sign_for_the_derived_authority() {
    let program = key(2);
    let group = key(1);
    let seeds = signer_seeds(&group, 1);
    let slices: Vec<&[u8]> = seeds.iter().map(|seed| seed.as_slice()).collect();
    let address =
        LedgerKey::create_program_address(&slices, &LedgerKey::new_from_array(program.to_bytes()))
            .unwrap();
    assert_eq!(
        Some(Pubkey::new_from_array(address.to_bytes())),
        derive_authority(&program, &group, 1)
    );
}
