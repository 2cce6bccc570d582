//! Lowering planned instructions to the chain's own instruction values
//! through the token and system program builders. What each built value
//! holds is abstracted by `instruction_model_of`, so a lowered batch reads
//! back as exactly the planned one.

use vstd::prelude::*;
use crate::address::Address;
use crate::plan::{plan_views, InstructionModel, PlannedInstruction};
use solana_sdk::instruction::Instruction;
use solana_sdk::program_pack::Pack;

verus! {

#[verifier::external_type_specification]
#[verifier::external_body]
pub struct ExInstruction(Instruction);

/// What an instruction value built by the four builders below holds: which
/// builder made it, with which accounts and amounts. The builders encode
/// distinct program ids or tags and embed their arguments in the accounts
/// and data, so each built value carries exactly one model.
pub uninterp spec fn instruction_model_of(ix: Instruction) -> InstructionModel;

/// The models of a sequence of built instructions.
pub open spec fn lowered_views(v: Seq<Instruction>) -> Seq<InstructionModel> {
    v.map_values(|ix: Instruction| instruction_model_of(ix))
}

/// Relies on `solana_system_interface::instruction::create_account`, which
/// encodes exactly these arguments (funder and new account in the account
/// list, lamports and space in the data, the token program as owner).
#[verifier::external_body]
fn build_create_account(funder: &Address, new_account: &Address, lamports: u64, space: u64) -> (r:
    Instruction)
    ensures
        instruction_model_of(r) == (InstructionModel::CreateMintAccount {
            funder: funder@,
            mint: new_account@,
            lamports,
            space,
        }),
{
    let owner = spl_token::id();
    solana_system_interface::instruction::create_account(
        &solana_sdk::pubkey::Pubkey::new_from_array(funder.to_bytes()),
        &solana_sdk::pubkey::Pubkey::new_from_array(new_account.to_bytes()),
        lamports,
        space,
        &owner,
    )
}

/// Relies on `spl_token::instruction::initialize_mint`, which encodes
/// exactly these arguments (the mint in the account list; authority, freeze
/// authority and decimals in the data) and whose source shows it returns
/// `Ok` whenever the program id is the token program's own, as passed here.
#[verifier::external_body]
fn build_initialize_mint(mint: &Address, authority: &Address, freeze_authority: &Address, decimals:
    u8) -> (r: Instruction)
    ensures
        instruction_model_of(r) == (InstructionModel::InitializeMint {
            mint: mint@,
            authority: authority@,
            freeze_authority: freeze_authority@,
            decimals,
        }),
{
    let authority_pk = solana_sdk::pubkey::Pubkey::new_from_array(authority.to_bytes());
    let freeze_pk = solana_sdk::pubkey::Pubkey::new_from_array(freeze_authority.to_bytes());
    spl_token::instruction::initialize_mint(
        &spl_token::id(),
        &solana_sdk::pubkey::Pubkey::new_from_array(mint.to_bytes()),
        &authority_pk,
        Some(&freeze_pk),
        decimals,
    ).expect("the token program id is the crate's own")
}

/// Relies on
/// `spl_associated_token_account::instruction::create_associated_token_account`,
/// which encodes exactly these arguments (funder, owner and mint in the
/// account list) under the associated-token program's id.
#[verifier::external_body]
fn build_create_associated_account(funder: &Address, owner: &Address, mint: &Address) -> (r:
    Instruction)
    ensures
        instruction_model_of(r) == (InstructionModel::CreateAssociatedAccount {
            funder: funder@,
            owner: owner@,
            mint: mint@,
        }),
{
    spl_associated_token_account::instruction::create_associated_token_account(
        &solana_sdk::pubkey::Pubkey::new_from_array(funder.to_bytes()),
        &solana_sdk::pubkey::Pubkey::new_from_array(owner.to_bytes()),
        &solana_sdk::pubkey::Pubkey::new_from_array(mint.to_bytes()),
        &spl_token::id(),
    )
}

/// Relies on `spl_token::instruction::mint_to`, which encodes exactly these
/// arguments (mint, destination and authority in the account list, the
/// amount in the data) and whose source shows it returns `Ok` whenever the
/// program id is the token program's own, as passed here.
#[verifier::external_body]
fn build_mint_to(mint: &Address, destination: &Address, authority: &Address, amount: u64) -> (r:
    Instruction)
    ensures
        instruction_model_of(r) == (InstructionModel::MintTo {
            mint: mint@,
            destination: destination@,
            authority: authority@,
            amount,
        }),
{
    spl_token::instruction::mint_to(
        &spl_token::id(),
        &solana_sdk::pubkey::Pubkey::new_from_array(mint.to_bytes()),
        &solana_sdk::pubkey::Pubkey::new_from_array(destination.to_bytes()),
        &solana_sdk::pubkey::Pubkey::new_from_array(authority.to_bytes()),
        &[],
        amount,
    ).expect("the token program id is the crate's own")
}

/// Relies on `spl_token::state::Mint::LEN`: the packed size of a mint
/// account, 82 bytes in the token program's layout.
#[verifier::external_body]
pub fn mint_account_space() -> (r: u64)
    ensures
        r == 82,
{
    spl_token::state::Mint::LEN as u64
}

/// Lower one planned instruction to the chain's instruction value.
fn lower_instruction(p: &PlannedInstruction) -> (r: Instruction)
    ensures
        instruction_model_of(r) == p@,
{
    match p {
        PlannedInstruction::CreateMintAccount { funder, mint, lamports, space } =>
            build_create_account(funder, mint, *lamports, *space),
        PlannedInstruction::InitializeMint { mint, authority, freeze_authority, decimals } =>
            build_initialize_mint(mint, authority, freeze_authority, *decimals),
        PlannedInstruction::CreateAssociatedAccount { funder, owner, mint } =>
            build_create_associated_account(funder, owner, mint),
        PlannedInstruction::MintTo { mint, destination, authority, amount } =>
            build_mint_to(mint, destination, authority, *amount),
    }
}

/// Lower a whole planned batch: one instruction per planned instruction, in
/// order, and the lowered batch models back as exactly the planned one.
pub fn lower_plan(plan: &Vec<PlannedInstruction>) -> (r: Vec<Instruction>)
    ensures
        r@.len() == plan@.len(),
        lowered_views(r@) == plan_views(plan@),
{
    let mut out: Vec<Instruction> = Vec::new();
    let mut i: usize = 0;
    proof {
        assert(lowered_views(out@) =~= plan_views(plan@.take(0)));
    }
    while i < plan.len()
        invariant
            i <= plan@.len(),
            out@.len() == i,
            lowered_views(out@) == plan_views(plan@.take(i as int)),
        decreases plan@.len() - i,
    {
        let ghost old_out = out@;
        let ix = lower_instruction(&plan[i]);
        out.push(ix);
        proof {
            assert(lowered_views(out@) =~= lowered_views(old_out) + seq![instruction_model_of(ix)]);
            assert(plan_views(plan@.take(i as int + 1))
                =~= plan_views(plan@.take(i as int)) + seq![plan@[i as int]@]);
        }
        i = i + 1;
    }
    proof {
        assert(plan@.take(plan@.len() as int) =~= plan@);
    }
    out
}

} // verus!
