use solana_sdk::{
    instruction::{AccountMeta, Instruction},
    pubkey::Pubkey,
    signature::Signer,
    signer::keypair::{keypair_from_seed, Keypair},
    transaction::Transaction,
};
use submit_engine::engine::{Action, Anchor, ConfirmationStatus, Event, Signature, Submission};
use submit_engine::signing::signing_keys;

fn keypair(seed: u8) -> Keypair {
    match keypair_from_seed(&[seed; 32]) {
        Ok(pair) => pair,
        Err(_) => panic!("a seed of 32 bytes makes a keypair"),
    }
}

fn ledger_batch(batch: &[submit_engine::instruction::Instruction]) -> Vec<Instruction> {
    batch
        .iter()
        .map(|ix| Instruction {
            program_id: Pubkey::new_from_array(ix.program_id),
            accounts: ix
                .accounts
                .iter()
                .map(|meta| AccountMeta {
                    pubkey: Pubkey::new_from_array(meta.pubkey),
                    is_signer: meta.is_signer,
                    is_writable: meta.is_writable,
                })
                .collect(),
            data: ix.data.clone(),
        })
        .collect()
}

/// Signs the submission's batch against the submission's anchor and encodes
/// the result as it goes over the wire.
fn signed_payload(sub: &Submission, signer: &Keypair, fee_payer: &Keypair) -> Vec<u8> {
    let anchor = match sub.anchor() {
        Some(anchor) => anchor,
        None => panic!("a submission that is signed holds an anchor"),
    };
    let mut tx = Transaction::new_with_payer(&ledger_batch(sub.batch()), Some(&fee_payer.pubkey()));
    let keys = signing_keys(signer.pubkey().to_bytes(), fee_payer.pubkey().to_bytes());
    if keys.len() == 1 {
        tx.sign(&[signer], solana_sdk::hash::Hash::new_from_array(anchor.blockhash));
    } else {
        tx.sign(&[signer, fee_payer], solana_sdk::hash::Hash::new_from_array(anchor.blockhash));
    }
    assert_eq!(tx.signatures.len(), keys.len());
    match bincode::serialize(&tx) {
        Ok(bytes) => bytes,
        Err(_) => panic!("a signed batch encodes"),
    }
}

fn transfer_between(from: &Keypair, to: &Keypair) -> submit_engine::instruction::Instruction {
    submit_engine::instruction::Instruction {
        program_id: [6; 32],
        accounts: vec![
            submit_engine::instruction::AccountMeta {
                pubkey: from.pubkey().to_bytes(),
                is_signer: true,
                is_writable: true,
            },
            submit_engine::instruction::AccountMeta {
                pubkey: to.pubkey().to_bytes(),
                is_signer: false,
                is_writable: true,
            },
        ],
        data: vec![3, 0xe8, 0x03, 0, 0, 0, 0, 0, 0],
    }
}

fn signed_submission(signer: &Keypair, other: &Keypair, blockhash: u8) -> Submission {
    let mut sub =
        Submission::start(vec![transfer_between(signer, other)], 32_000, 1000, false, false);
    assert_eq!(sub.step(Event::BalanceFetched(Some(1_000_000))), Action::FetchAnchor);
    let anchor = Anchor { blockhash: [blockhash; 32], last_valid_slot: 77 };
    assert_eq!(sub.step(Event::AnchorFetched(Some(anchor))), Action::Sign);
    assert_eq!(sub.step(Event::Signed), Action::Submit);
    sub
}

#[test]
fn signed_payload_round_trip() {
    let signer = keypair(1);
    let other = keypair(2);
    let sub = signed_submission(&signer, &other, 9);
    let bytes = signed_payload(&sub, &signer, &signer);
    let decoded: Transaction = match bincode::deserialize(&bytes) {
        Ok(tx) => tx,
        Err(_) => panic!("an encoded batch decodes"),
    };
    assert_eq!(decoded.message.recent_blockhash, solana_sdk::hash::Hash::new_from_array([9; 32]));
    assert_eq!(decoded.message.instructions.len(), 3);
    assert_eq!(decoded.message.instructions[0].data, vec![2u8, 0x00, 0x7d, 0, 0]);
    assert_eq!(decoded.message.instructions[1].data, vec![3u8, 0xe8, 0x03, 0, 0, 0, 0, 0, 0]);
    assert_eq!(decoded.message.instructions[2].data, sub.batch()[2].data);
    assert_eq!(decoded.message.account_keys[0], signer.pubkey());
    assert!(decoded.verify().is_ok());
    let again = match bincode::serialize(&decoded) {
        Ok(bytes) => bytes,
        Err(_) => panic!("a decoded batch encodes"),
    };
    assert_eq!(again, bytes);
}

#[test]
fn signed_payload_is_the_same_until_the_anchor_is_refreshed() {
    let signer = keypair(1);
    let payer = keypair(2);
    let mut sub = signed_submission(&signer, &payer, 9);
    let first = signed_payload(&sub, &signer, &payer);

    // A failed submission, then one that is polled eight times in vain: the
    // third submission still carries the payload of the first.
    assert_eq!(sub.step(Event::SubmitFailed), Action::Submit);
    assert_eq!(signed_payload(&sub, &signer, &payer), first);
    let mut action = sub.step(Event::Submitted(Signature { bytes: [5; 64] }));
    while action != Action::Submit {
        assert_eq!(signed_payload(&sub, &signer, &payer), first);
        action = sub.step(Event::StatusFetched(ConfirmationStatus::NotYetVisible));
    }
    assert_eq!(sub.attempts(), 3);
    assert_eq!(signed_payload(&sub, &signer, &payer), first);

    // Seven more failures bring the tenth attempt and with it a new anchor.
    for _ in 0..7 {
        assert_eq!(sub.step(Event::SubmitFailed), Action::Submit);
        assert_eq!(signed_payload(&sub, &signer, &payer), first);
    }
    assert_eq!(sub.step(Event::SubmitFailed), Action::FetchAnchor);
    let fresh = Anchor { blockhash: [10; 32], last_valid_slot: 99 };
    assert_eq!(sub.step(Event::AnchorFetched(Some(fresh))), Action::Sign);
    assert_eq!(sub.step(Event::Signed), Action::Submit);
    assert_eq!(sub.attempts(), 11);
    assert_ne!(signed_payload(&sub, &signer, &payer), first);
}

#[test]
fn one_or_two_signatures_on_the_payload() {
    let signer = keypair(1);
    let payer = keypair(2);
    let sub = signed_submission(&signer, &payer, 9);
    let alone: Transaction = match bincode::deserialize(&signed_payload(&sub, &signer, &signer)) {
        Ok(tx) => tx,
        Err(_) => panic!("an encoded batch decodes"),
    };
    assert_eq!(alone.signatures.len(), 1);
    let paid: Transaction = match bincode::deserialize(&signed_payload(&sub, &signer, &payer)) {
        Ok(tx) => tx,
        Err(_) => panic!("an encoded batch decodes"),
    };
    assert_eq!(paid.signatures.len(), 2);
    assert_eq!(paid.message.account_keys[0], payer.pubkey());
    assert!(paid.verify().is_ok());
}
