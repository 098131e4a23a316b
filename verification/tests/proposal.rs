use social_recovery::accounts::{GroupAccount, SignerAccount};
use social_recovery::instruction::Instruction;
use social_recovery::{Auth, Pubkey, SocialRecovery, Transaction, TransactionAccount};

fn key(byte: u8) -> Pubkey {
    Pubkey::new_from_array([byte; 32])
}

fn proposal(seqno: u32) -> Transaction {
    Transaction {
        social_recovery: key(1),
        program_id: key(40),
        accounts: vec![
            TransactionAccount { pubkey: key(30), is_signer: false, is_writable: true },
            TransactionAccount { pubkey: key(31), is_signer: true, is_writable: false },
        ],
        data: vec![8, 9],
        did_execute: false,
        alliance_seqno: seqno,
    }
}

fn accounts(allies: Vec<Pubkey>, threshold: u64, seqno: u32) -> Auth {
    Auth {
        social_recovery: GroupAccount {
            key: key(1),
            data: SocialRecovery {
                signer: key(50),
                allies,
                threshold,
                nonce: 1,
                alliance_seqno: seqno,
            },
        },
        social_recovery_signer: SignerAccount { key: key(90), is_signer: true },
    }
}

#[test]
fn a_proposal_is_stale_once_the_allies_have_changed() {
    let mut group = accounts(vec![key(10), key(11), key(12)], 3, 0);
    let pending = proposal(group.social_recovery.data.alliance_seqno);
    assert!(!pending.is_stale(&group.social_recovery.data));
    assert_eq!(group.set_allies(&Some(key(90)), vec![key(10)]), Ok(()));
    assert_eq!(group.social_recovery.data.alliance_seqno, 1);
    assert_eq!(group.social_recovery.data.threshold, 1);
    assert!(pending.is_stale(&group.social_recovery.data));
}

#[test]
fn a_proposal_stays_current_when_only_the_threshold_changes() {
    let mut group = accounts(vec![key(10), key(11), key(12)], 3, 4);
    let pending = proposal(4);
    assert_eq!(group.change_threshold(&Some(key(90)), 1), Ok(()));
    assert!(!pending.is_stale(&group.social_recovery.data));
}

#[test]
fn a_proposal_of_a_later_membership_is_stale_too() {
    let group = accounts(vec![key(10)], 1, 2);
    assert!(proposal(3).is_stale(&group.social_recovery.data));
    assert!(proposal(1).is_stale(&group.social_recovery.data));
    assert!(!proposal(2).is_stale(&group.social_recovery.data));
}

#[test]
fn the_instruction_of_a_proposal_is_what_it_holds() {
    let pending = proposal(0);
    assert_eq!(
        pending.instruction(),
        Instruction {
            program_id: key(40),
            accounts: vec![
                TransactionAccount { pubkey: key(30), is_signer: false, is_writable: true },
                TransactionAccount { pubkey: key(31), is_signer: true, is_writable: false },
            ],
            data: vec![8, 9],
        }
    );
}

#[test]
fn the_instruction_of_an_empty_proposal_is_empty() {
    let mut pending = proposal(0);
    pending.accounts = Vec::new();
    pending.data = Vec::new();
    assert_eq!(
        pending.instruction(),
        Instruction { program_id: key(40), accounts: Vec::new(), data: Vec::new() }
    );
}
