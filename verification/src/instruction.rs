//! Instructions as plain values, and the two budget-control instructions that
//! lead every batch. The budget instructions are built by `solana_sdk`.

use solana_sdk::compute_budget::ComputeBudgetInstruction;
use vstd::bytes::spec_u32_to_le_bytes;
use vstd::bytes::spec_u64_to_le_bytes;
use vstd::prelude::*;

verus! {

/// An account that an instruction touches.
#[derive(Debug)]
pub struct AccountMeta {
    pub pubkey: [u8; 32],
    pub is_signer: bool,
    pub is_writable: bool,
}

/// One unit of work for a program on the ledger. The engine never looks into
/// the accounts or the data of an instruction that a caller hands it.
#[derive(Debug)]
pub struct Instruction {
    pub program_id: [u8; 32],
    pub accounts: Vec<AccountMeta>,
    pub data: Vec<u8>,
}

/// What an `AccountMeta` holds.
pub struct AccountMetaView {
    pub pubkey: Seq<u8>,
    pub is_signer: bool,
    pub is_writable: bool,
}

/// What an `Instruction` holds.
pub struct InstructionView {
    pub program_id: Seq<u8>,
    pub accounts: Seq<AccountMetaView>,
    pub data: Seq<u8>,
}

impl View for AccountMeta {
    type V = AccountMetaView;

    open spec fn view(&self) -> AccountMetaView {
        AccountMetaView {
            pubkey: self.pubkey@,
            is_signer: self.is_signer,
            is_writable: self.is_writable,
        }
    }
}

impl View for Instruction {
    type V = InstructionView;

    open spec fn view(&self) -> InstructionView {
        InstructionView {
            program_id: self.program_id@,
            accounts: self.accounts@.map_values(|a: AccountMeta| a@),
            data: self.data@,
        }
    }
}

/// What a batch of instructions holds, in order.
pub open spec fn batch_view(batch: Seq<Instruction>) -> Seq<InstructionView> {
    batch.map_values(|ix: Instruction| ix@)
}

/// The address of the compute budget program.
pub open spec fn compute_budget_program_id() -> Seq<u8> {
    seq![
        3u8, 6, 70, 111, 229, 33, 23, 50, 255, 236, 173, 186, 114, 195, 155, 231,
        188, 140, 229, 187, 197, 247, 18, 107, 44, 67, 155, 58, 64, 0, 0, 0,
    ]
}

/// The instruction that limits a batch to `units` compute units: tag 2, then
/// the limit in little-endian order, addressed to the compute budget program
/// with no accounts.
pub open spec fn compute_unit_limit_instruction(units: u32) -> InstructionView {
    InstructionView {
        program_id: compute_budget_program_id(),
        accounts: Seq::empty(),
        data: seq![2u8] + spec_u32_to_le_bytes(units),
    }
}

/// The instruction that prices a compute unit at `micro_lamports`: tag 3, then
/// the price in little-endian order, addressed to the compute budget program
/// with no accounts.
pub open spec fn compute_unit_price_instruction(micro_lamports: u64) -> InstructionView {
    InstructionView {
        program_id: compute_budget_program_id(),
        accounts: Seq::empty(),
        data: seq![3u8] + spec_u64_to_le_bytes(micro_lamports),
    }
}

/// Calls `solana_sdk`'s `ComputeBudgetInstruction::set_compute_unit_limit` and
/// copies the result field by field. That function addresses the compute
/// budget program, names no account, and encodes the third variant of its
/// instruction set followed by the limit as four little-endian bytes.
#[verifier::external_body]
pub(crate) fn set_compute_unit_limit(units: u32) -> (ix: Instruction)
    ensures
        ix@ == compute_unit_limit_instruction(units),
{
    let built = ComputeBudgetInstruction::set_compute_unit_limit(units);
    let mut accounts = Vec::new();
    for a in built.accounts.iter() {
        let pubkey = a.pubkey.to_bytes();
        accounts.push(AccountMeta { pubkey, is_signer: a.is_signer, is_writable: a.is_writable });
    }
    Instruction { program_id: built.program_id.to_bytes(), accounts, data: built.data }
}

/// Calls `solana_sdk`'s `ComputeBudgetInstruction::set_compute_unit_price` and
/// copies the result field by field. That function addresses the compute
/// budget program, names no account, and encodes the fourth variant of its
/// instruction set followed by the price as eight little-endian bytes.
#[verifier::external_body]
pub(crate) fn set_compute_unit_price(micro_lamports: u64) -> (ix: Instruction)
    ensures
        ix@ == compute_unit_price_instruction(micro_lamports),
{
    let built = ComputeBudgetInstruction::set_compute_unit_price(micro_lamports);
    let mut accounts = Vec::new();
    for a in built.accounts.iter() {
        let pubkey = a.pubkey.to_bytes();
        accounts.push(AccountMeta { pubkey, is_signer: a.is_signer, is_writable: a.is_writable });
    }
    Instruction { program_id: built.program_id.to_bytes(), accounts, data: built.data }
}

/// The two budget-control instructions followed by the caller's instructions
/// in their order.
pub open spec fn with_budget(
    units: u32,
    micro_lamports: u64,
    instructions: Seq<InstructionView>,
) -> Seq<InstructionView> {
    seq![
        compute_unit_limit_instruction(units),
        compute_unit_price_instruction(micro_lamports),
    ] + instructions
}

/// Builds the batch that is signed as one unit: the compute unit limit, the
/// compute unit price, then the caller's instructions in their order.
pub fn build_batch(units: u32, micro_lamports: u64, instructions: Vec<Instruction>) -> (batch: Vec<
    Instruction,
>)
    ensures
        batch_view(batch@) == with_budget(units, micro_lamports, batch_view(instructions@)),
        batch@.len() == instructions@.len() + 2,
        forall|i: int| 0 <= i < instructions@.len() ==> batch@[i + 2] == instructions@[i],
{
    let mut batch: Vec<Instruction> = Vec::new();
    batch.push(set_compute_unit_limit(units));
    batch.push(set_compute_unit_price(micro_lamports));
    let ghost head = batch@;
    let mut rest = instructions;
    batch.append(&mut rest);
    proof {
        assert(batch@ == head + instructions@);
        assert(batch_view(batch@) =~= with_budget(
            units,
            micro_lamports,
            batch_view(instructions@),
        ));
    }
    batch
}

/// Puts a new compute unit price in the batch's second place and leaves every
/// other instruction as it is.
pub fn reprice_batch(batch: &mut Vec<Instruction>, micro_lamports: u64)
    requires
        old(batch)@.len() >= 2,
    ensures
        final(batch)@.len() == old(batch)@.len(),
        final(batch)@[1]@ == compute_unit_price_instruction(micro_lamports),
        forall|i: int| 0 <= i < old(batch)@.len() && i != 1 ==> final(batch)@[i] == old(batch)@[i],
        batch_view(final(batch)@) == batch_view(old(batch)@).update(
            1,
            compute_unit_price_instruction(micro_lamports),
        ),
{
    batch.set(1, set_compute_unit_price(micro_lamports));
    proof {
        assert(batch_view(batch@) =~= batch_view(old(batch)@).update(
            1,
            compute_unit_price_instruction(micro_lamports),
        ));
    }
}

} // verus!
