use solana_sdk::compute_budget::ComputeBudgetInstruction;
use submit_engine::instruction::{build_batch, reprice_batch, AccountMeta, Instruction};

const BUDGET_PROGRAM: [u8; 32] = [
    3, 6, 70, 111, 229, 33, 23, 50, 255, 236, 173, 186, 114, 195, 155, 231, 188, 140, 229, 187,
    197, 247, 18, 107, 44, 67, 155, 58, 64, 0, 0, 0,
];

fn user_instruction(tag: u8) -> Instruction {
    Instruction {
        program_id: [tag; 32],
        accounts: vec![
            AccountMeta { pubkey: [tag + 1; 32], is_signer: true, is_writable: false },
            AccountMeta { pubkey: [tag + 2; 32], is_signer: false, is_writable: true },
        ],
        data: vec![tag, 9, 8, 7],
    }
}

fn same(a: &Instruction, b: &Instruction) -> bool {
    a.program_id == b.program_id
        && a.data == b.data
        && a.accounts.len() == b.accounts.len()
        && a.accounts.iter().zip(b.accounts.iter()).all(|(x, y)| {
            x.pubkey == y.pubkey && x.is_signer == y.is_signer && x.is_writable == y.is_writable
        })
}

#[test]
fn budget_program_address() {
    assert_eq!(solana_sdk::compute_budget::id().to_bytes(), BUDGET_PROGRAM);
}

#[test]
fn batch_starts_with_limit_then_price() {
    let batch = build_batch(32_000, 1000, vec![user_instruction(40), user_instruction(50)]);
    assert_eq!(batch.len(), 4);
    assert_eq!(batch[0].program_id, BUDGET_PROGRAM);
    assert!(batch[0].accounts.is_empty());
    assert_eq!(batch[0].data, vec![2u8, 0x00, 0x7d, 0x00, 0x00]);
    assert_eq!(batch[1].program_id, BUDGET_PROGRAM);
    assert!(batch[1].accounts.is_empty());
    assert_eq!(batch[1].data, vec![3u8, 0xe8, 0x03, 0, 0, 0, 0, 0, 0]);
    assert!(same(&batch[2], &user_instruction(40)));
    assert!(same(&batch[3], &user_instruction(50)));
}

#[test]
fn batch_of_nothing_holds_the_budget_alone() {
    let batch = build_batch(0, 0, Vec::new());
    assert_eq!(batch.len(), 2);
    assert_eq!(batch[0].data, vec![2u8, 0, 0, 0, 0]);
    assert_eq!(batch[1].data, vec![3u8, 0, 0, 0, 0, 0, 0, 0, 0]);
}

#[test]
fn budget_numbers_are_little_endian() {
    let batch = build_batch(0x0403_0201, 0x0807_0605_0403_0201, Vec::new());
    assert_eq!(batch[0].data, vec![2u8, 1, 2, 3, 4]);
    assert_eq!(batch[1].data, vec![3u8, 1, 2, 3, 4, 5, 6, 7, 8]);
    let widest = build_batch(u32::MAX, u64::MAX, Vec::new());
    assert_eq!(widest[0].data, vec![2u8, 255, 255, 255, 255]);
    assert_eq!(widest[1].data, vec![3u8, 255, 255, 255, 255, 255, 255, 255, 255]);
}

#[test]
fn budget_instructions_are_those_of_the_ledger_library() {
    let batch = build_batch(200_000, 123_456_789, Vec::new());
    let limit = ComputeBudgetInstruction::set_compute_unit_limit(200_000);
    let price = ComputeBudgetInstruction::set_compute_unit_price(123_456_789);
    assert_eq!(batch[0].program_id, limit.program_id.to_bytes());
    assert_eq!(batch[0].data, limit.data);
    assert_eq!(batch[0].accounts.len(), limit.accounts.len());
    assert_eq!(batch[1].program_id, price.program_id.to_bytes());
    assert_eq!(batch[1].data, price.data);
    assert_eq!(batch[1].accounts.len(), price.accounts.len());
}

#[test]
fn repricing_touches_the_second_place_only() {
    let mut batch = build_batch(50_000, 1000, vec![user_instruction(1), user_instruction(2)]);
    reprice_batch(&mut batch, 77);
    assert_eq!(batch.len(), 4);
    assert_eq!(batch[0].data, vec![2u8, 0x50, 0xc3, 0, 0]);
    assert_eq!(batch[1].program_id, BUDGET_PROGRAM);
    assert!(batch[1].accounts.is_empty());
    assert_eq!(batch[1].data, vec![3u8, 77, 0, 0, 0, 0, 0, 0, 0]);
    assert!(same(&batch[2], &user_instruction(1)));
    assert!(same(&batch[3], &user_instruction(2)));
}
