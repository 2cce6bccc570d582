//! Planning the instruction batches the workflows submit: which chain
//! instructions, with which accounts and amounts, in which order.

use vstd::prelude::*;
use crate::address::{derived_ata_of, Address};

verus! {

/// The mathematical model of one planned instruction, over raw 32-byte
/// addresses.
pub enum InstructionModel {
    /// Create the account that will hold a new mint, funded by `funder`.
    CreateMintAccount { funder: Seq<u8>, mint: Seq<u8>, lamports: u64, space: u64 },
    /// Initialize a created account as a token mint.
    InitializeMint { mint: Seq<u8>, authority: Seq<u8>, freeze_authority: Seq<u8>, decimals: u8 },
    /// Create the associated token account of `owner` for `mint`.
    CreateAssociatedAccount { funder: Seq<u8>, owner: Seq<u8>, mint: Seq<u8> },
    /// Credit `amount` base units to `destination`, signed by `authority`.
    MintTo { mint: Seq<u8>, destination: Seq<u8>, authority: Seq<u8>, amount: u64 },
}

/// One planned chain instruction.
#[derive(Clone, Debug)]
pub enum PlannedInstruction {
    /// Create the account that will hold a new mint, funded by `funder`.
    CreateMintAccount { funder: Address, mint: Address, lamports: u64, space: u64 },
    /// Initialize a created account as a token mint.
    InitializeMint { mint: Address, authority: Address, freeze_authority: Address, decimals: u8 },
    /// Create the associated token account of `owner` for `mint`.
    CreateAssociatedAccount { funder: Address, owner: Address, mint: Address },
    /// Credit `amount` base units to `destination`, signed by `authority`.
    MintTo { mint: Address, destination: Address, authority: Address, amount: u64 },
}

impl View for PlannedInstruction {
    type V = InstructionModel;

    open spec fn view(&self) -> InstructionModel {
        match *self {
            PlannedInstruction::CreateMintAccount { funder, mint, lamports, space } =>
                InstructionModel::CreateMintAccount {
                    funder: funder@,
                    mint: mint@,
                    lamports,
                    space,
                },
            PlannedInstruction::InitializeMint { mint, authority, freeze_authority, decimals } =>
                InstructionModel::InitializeMint {
                    mint: mint@,
                    authority: authority@,
                    freeze_authority: freeze_authority@,
                    decimals,
                },
            PlannedInstruction::CreateAssociatedAccount { funder, owner, mint } =>
                InstructionModel::CreateAssociatedAccount {
                    funder: funder@,
                    owner: owner@,
                    mint: mint@,
                },
            PlannedInstruction::MintTo { mint, destination, authority, amount } =>
                InstructionModel::MintTo {
                    mint: mint@,
                    destination: destination@,
                    authority: authority@,
                    amount,
                },
        }
    }
}

/// The views of a planned batch.
pub open spec fn plan_views(v: Seq<PlannedInstruction>) -> Seq<InstructionModel> {
    v.map_values(|p: PlannedInstruction| p@)
}

/// The two-instruction batch that creates a token: create the mint's
/// account, then initialize it with the payer as mint and freeze authority.
pub open spec fn spec_create_token_plan(
    payer: Seq<u8>,
    mint: Seq<u8>,
    lamports: u64,
    space: u64,
    decimals: u8,
) -> Seq<InstructionModel> {
    seq![
        InstructionModel::CreateMintAccount { funder: payer, mint, lamports, space },
        InstructionModel::InitializeMint {
            mint,
            authority: payer,
            freeze_authority: payer,
            decimals,
        },
    ]
}

/// The instructions one recipient contributes: a creation of its associated
/// account when that account does not exist yet, then the mint-to.
pub open spec fn spec_recipient_plan(
    payer: Seq<u8>,
    mint: Seq<u8>,
    recipient: Seq<u8>,
    ata: Seq<u8>,
    ata_exists: bool,
    amount: u64,
) -> Seq<InstructionModel> {
    let mint_ix = InstructionModel::MintTo {
        mint,
        destination: ata,
        authority: payer,
        amount,
    };
    if ata_exists {
        seq![mint_ix]
    } else {
        seq![
            InstructionModel::CreateAssociatedAccount { funder: payer, owner: recipient, mint },
            mint_ix,
        ]
    }
}

/// The accumulated batch for a whole recipient list, each recipient's
/// contribution in list order; `exists_flags[i]` says whether recipient
/// `i`'s associated account already exists.
pub open spec fn spec_batch_plan(
    payer: Seq<u8>,
    mint: Seq<u8>,
    recipients: Seq<Seq<u8>>,
    exists_flags: Seq<bool>,
    amount: u64,
) -> Seq<InstructionModel>
    decreases recipients.len(),
{
    if recipients.len() == 0 {
        Seq::empty()
    } else {
        spec_recipient_plan(
            payer,
            mint,
            recipients[0],
            derived_ata_of(recipients[0], mint)->Some_0,
            exists_flags[0],
            amount,
        ) + spec_batch_plan(payer, mint, recipients.drop_first(), exists_flags.drop_first(), amount)
    }
}

/// Extending a batch by one recipient appends that recipient's plan.
pub proof fn lemma_batch_plan_snoc(
    payer: Seq<u8>,
    mint: Seq<u8>,
    recipients: Seq<Seq<u8>>,
    exists_flags: Seq<bool>,
    recipient: Seq<u8>,
    flag: bool,
    amount: u64,
)
    requires
        recipients.len() == exists_flags.len(),
    ensures
        spec_batch_plan(payer, mint, recipients.push(recipient), exists_flags.push(flag), amount)
            == spec_batch_plan(payer, mint, recipients, exists_flags, amount)
                + spec_recipient_plan(
                    payer,
                    mint,
                    recipient,
                    derived_ata_of(recipient, mint)->Some_0,
                    flag,
                    amount,
                ),
    decreases recipients.len(),
{
    let rs = recipients.push(recipient);
    let fs = exists_flags.push(flag);
    if recipients.len() == 0 {
        assert(rs.drop_first() =~= Seq::<Seq<u8>>::empty());
        assert(fs.drop_first() =~= Seq::<bool>::empty());
        assert(rs[0] == recipient);
        assert(fs[0] == flag);
        assert(spec_batch_plan(payer, mint, rs.drop_first(), fs.drop_first(), amount)
            =~= Seq::<InstructionModel>::empty());
        assert(spec_batch_plan(payer, mint, recipients, exists_flags, amount)
            =~= Seq::<InstructionModel>::empty());
        assert(spec_batch_plan(payer, mint, rs, fs, amount)
            =~= spec_batch_plan(payer, mint, recipients, exists_flags, amount)
                + spec_recipient_plan(
                    payer,
                    mint,
                    recipient,
                    derived_ata_of(recipient, mint)->Some_0,
                    flag,
                    amount,
                ));
    } else {
        assert(rs.drop_first() =~= recipients.drop_first().push(recipient));
        assert(fs.drop_first() =~= exists_flags.drop_first().push(flag));
        assert(rs[0] == recipients[0]);
        assert(fs[0] == exists_flags[0]);
        lemma_batch_plan_snoc(
            payer,
            mint,
            recipients.drop_first(),
            exists_flags.drop_first(),
            recipient,
            flag,
            amount,
        );
        assert(spec_batch_plan(payer, mint, rs, fs, amount)
            =~= spec_batch_plan(payer, mint, recipients, exists_flags, amount)
                + spec_recipient_plan(
                    payer,
                    mint,
                    recipient,
                    derived_ata_of(recipient, mint)->Some_0,
                    flag,
                    amount,
                ));
    }
}

/// Build the create-token batch.
pub fn plan_create_token(
    payer: &Address,
    mint: &Address,
    lamports: u64,
    space: u64,
    decimals: u8,
) -> (r: Vec<PlannedInstruction>)
    ensures
        plan_views(r@) == spec_create_token_plan(payer@, mint@, lamports, space, decimals),
{
    let mut out: Vec<PlannedInstruction> = Vec::new();
    out.push(PlannedInstruction::CreateMintAccount {
        funder: *payer,
        mint: *mint,
        lamports,
        space,
    });
    out.push(PlannedInstruction::InitializeMint {
        mint: *mint,
        authority: *payer,
        freeze_authority: *payer,
        decimals,
    });
    proof {
        assert(plan_views(out@)
            =~= spec_create_token_plan(payer@, mint@, lamports, space, decimals));
    }
    out
}

/// Build one recipient's instructions, given its associated account address
/// and whether that account already exists.
pub fn plan_for_recipient(
    payer: &Address,
    mint: &Address,
    recipient: &Address,
    ata: &Address,
    ata_exists: bool,
    amount: u64,
) -> (r: Vec<PlannedInstruction>)
    ensures
        plan_views(r@) == spec_recipient_plan(payer@, mint@, recipient@, ata@, ata_exists, amount),
{
    let mut out: Vec<PlannedInstruction> = Vec::new();
    if !ata_exists {
        out.push(PlannedInstruction::CreateAssociatedAccount {
            funder: *payer,
            owner: *recipient,
            mint: *mint,
        });
    }
    out.push(PlannedInstruction::MintTo {
        mint: *mint,
        destination: *ata,
        authority: *payer,
        amount,
    });
    proof {
        assert(plan_views(out@)
            =~= spec_recipient_plan(payer@, mint@, recipient@, ata@, ata_exists, amount));
    }
    out
}

} // verus!
