//! The orchestrator: the create-token, airdrop, batch-airdrop and
//! balance-check workflows, reaching the chain through a narrow port so the
//! decision logic is verified for every behaviour of the connection.

use vstd::prelude::*;
use crate::address::{
    address_from_text,
    address_of_text,
    derived_ata_of,
    get_associated_token_address,
    Address,
};
use crate::lower::{lower_plan, lowered_views, mint_account_space};
use crate::numbers::{all_digits, digits_value, parse_u64_decimal};
use crate::plan::{plan_create_token, plan_for_recipient, plan_views, spec_batch_plan};
use crate::plan::{spec_create_token_plan, spec_recipient_plan, PlannedInstruction};
use crate::recipients::recipient_views;
use solana_sdk::instruction::Instruction;

verus! {

/// An error the chain port reports: a network, signing, or on-chain
/// rejection, carried as a message.
#[derive(Debug, Clone, PartialEq, Eq)]
pub struct ChainError {
    pub message: String,
}

/// The narrow capability interface to the chain. A live implementation owns
/// an RPC connection and the payer's signing material; tests substitute a
/// fake. The workflows' contracts hold for every implementation.
pub trait ChainPort {
    /// A fresh mint address whose signing material the port retains for the
    /// next submission that the mint must co-sign.
    fn fresh_mint_address(&mut self) -> Result<Address, ChainError>;

    /// The minimum balance that makes an account of `size` bytes exempt
    /// from storage rent.
    fn minimum_balance_for_rent_exemption(&mut self, size: u64) -> Result<u64, ChainError>;

    /// Whether an account currently exists on chain at `address`; a failed
    /// query counts as absence.
    fn account_exists(&mut self, address: &Address) -> bool;

    /// The token balance of the account at `address`, as the chain reports
    /// it; `Err` when the account does not exist or the query fails.
    fn token_balance(&mut self, address: &Address) -> Result<String, ChainError>;

    /// Build one transaction from the instructions, sign it with the payer
    /// (and, when `mint_signs`, with the retained fresh mint), submit it,
    /// and block until it is confirmed or rejected.
    fn submit_batch(&mut self, instructions: &Vec<Instruction>, mint_signs: bool) -> Result<
        String,
        ChainError,
    >;
}

/// Why a workflow failed.
#[derive(Debug, Clone, PartialEq, Eq)]
pub enum ExecutorError {
    /// The mint argument is not a valid address.
    InvalidMint,
    /// The wallet argument is not a valid address.
    InvalidAddress,
    /// No associated account could be derived.
    DerivationFailed,
    /// The chain reported a balance that is not an unsigned decimal number.
    MalformedBalance,
    /// The chain port failed.
    Chain(ChainError),
}

/// Why one recipient of an airdrop failed.
#[derive(Debug, Clone, PartialEq, Eq)]
pub enum RecipientFailure {
    /// No associated account could be derived for this recipient.
    Derivation,
    /// This recipient's submission failed.
    Chain(ChainError),
}

/// What became of one recipient of a per-recipient airdrop.
#[derive(Debug)]
pub struct RecipientOutcome {
    pub recipient: Address,
    pub result: Result<String, RecipientFailure>,
}

/// The orchestrator: owns the chain port and the payer's address.
pub struct TokenExecutor<P: ChainPort> {
    pub port: P,
    pub payer: Address,
}

/// Turn the chain's answer to a balance query into the reported balance: a
/// missing account or failed query is a zero balance, not an error; an
/// answer that is not an unsigned decimal number is rejected.
pub fn balance_from_response(response: &Result<String, ChainError>) -> (r: Result<
    u64,
    ExecutorError,
>)
    ensures
        match response {
            Err(_) => r == Ok::<u64, ExecutorError>(0),
            Ok(s) => (if s@.len() > 0 && all_digits(s@) && digits_value(s@) <= u64::MAX {
                r == Ok::<u64, ExecutorError>(digits_value(s@) as u64)
            } else {
                r == Err::<u64, ExecutorError>(ExecutorError::MalformedBalance)
            }),
        },
{
    match response {
        Err(_) => Ok(0),
        Ok(s) => match parse_u64_decimal(s.as_str()) {
            Some(n) => Ok(n),
            None => Err(ExecutorError::MalformedBalance),
        },
    }
}

impl<P: ChainPort> TokenExecutor<P> {
    /// An orchestrator over `port` whose fees `payer` pays and whose mints
    /// `payer` controls.
    pub fn new(port: P, payer: Address) -> (r: TokenExecutor<P>)
        ensures
            r.payer == payer,
    {
        TokenExecutor { port, payer }
    }

    /// The payer's address.
    pub fn payer_address(&self) -> (r: Address)
        ensures
            r == self.payer,
    {
        self.payer
    }

    /// Create a token: a fresh mint address, funded rent-exempt at the mint
    /// account's size and initialized with the given decimals and the payer
    /// as mint and freeze authority, in one transaction signed by payer and
    /// mint. Fails only when the port does.
    pub fn create_token(&mut self, decimals: u8) -> (r: Result<Address, ExecutorError>)
        ensures
            final(self).payer == old(self).payer,
            r is Err ==> r->Err_0 is Chain,
    {
        let mint = match self.port.fresh_mint_address() {
            Ok(m) => m,
            Err(e) => {
                return Err(ExecutorError::Chain(e));
            },
        };
        let space = mint_account_space();
        let rent = match self.port.minimum_balance_for_rent_exemption(space) {
            Ok(v) => v,
            Err(e) => {
                return Err(ExecutorError::Chain(e));
            },
        };
        let plan = plan_create_token(&self.payer, &mint, rent, space, decimals);
        let instructions = lower_plan(&plan);
        proof {
            // What is handed to the port: the create-token batch exactly,
            // sized by the mint account's 82 bytes.
            assert(lowered_views(instructions@)
                == spec_create_token_plan(self.payer@, mint@, rent, space, decimals));
            assert(space == 82);
        }
        match self.port.submit_batch(&instructions, true) {
            Ok(_signature) => Ok(mint),
            Err(e) => Err(ExecutorError::Chain(e)),
        }
    }

    /// Airdrop `amount` base units to each recipient, one transaction per
    /// recipient. Every recipient is attempted, in order, whatever became
    /// of the ones before it; each outcome is recorded. Fails only when the
    /// mint argument is not a valid address.
    pub fn airdrop_to_recipients(
        &mut self,
        token_mint: &str,
        amount: u64,
        recipients: &Vec<Address>,
    ) -> (r: Result<Vec<RecipientOutcome>, ExecutorError>)
        ensures
            final(self).payer == old(self).payer,
            match r {
                Ok(outcomes) => {
                    &&& address_of_text(token_mint@) is Some
                    &&& outcomes@.len() == recipients@.len()
                    &&& forall|k: int|
                        0 <= k < outcomes@.len() ==> (#[trigger] outcomes@[k]).recipient
                            == recipients@[k]
                    &&& forall|k: int|
                        0 <= k < outcomes@.len() ==> (((#[trigger] outcomes@[k]).result == Err::<
                            String,
                            RecipientFailure,
                        >(RecipientFailure::Derivation)) <==> derived_ata_of(
                            recipients@[k]@,
                            address_of_text(token_mint@)->Some_0,
                        ) is None)
                },
                Err(e) => e == ExecutorError::InvalidMint && address_of_text(token_mint@) is None,
            },
    {
        let mint = match address_from_text(token_mint) {
            Some(m) => m,
            None => {
                return Err(ExecutorError::InvalidMint);
            },
        };
        let payer = self.payer;
        let n = recipients.len();
        let mut outcomes: Vec<RecipientOutcome> = Vec::new();
        let mut i: usize = 0;
        while i < n
            invariant
                i <= n,
                n == recipients@.len(),
                self.payer == payer,
                address_of_text(token_mint@) == Some(mint@),
                outcomes@.len() == i,
                forall|k: int|
                    0 <= k < i ==> (#[trigger] outcomes@[k]).recipient == recipients@[k],
                forall|k: int|
                    0 <= k < i ==> (((#[trigger] outcomes@[k]).result == Err::<
                        String,
                        RecipientFailure,
                    >(RecipientFailure::Derivation)) <==> derived_ata_of(
                        recipients@[k]@,
                        mint@,
                    ) is None),
            decreases n - i,
        {
            let recipient = recipients[i];
            let result: Result<String, RecipientFailure> = match get_associated_token_address(
                &recipient,
                &mint,
            ) {
                Some(ata) => {
                    let ata_exists = self.port.account_exists(&ata);
                    let plan = plan_for_recipient(
                        &payer,
                        &mint,
                        &recipient,
                        &ata,
                        ata_exists,
                        amount,
                    );
                    let instructions = lower_plan(&plan);
                    proof {
                        // What is handed to the port: this recipient's plan
                        // exactly, aimed at its derived associated account.
                        assert(lowered_views(instructions@) == spec_recipient_plan(
                            payer@,
                            mint@,
                            recipient@,
                            ata@,
                            ata_exists,
                            amount,
                        ));
                        assert(derived_ata_of(recipient@, mint@) == Some(ata@));
                    }
                    match self.port.submit_batch(&instructions, false) {
                        Ok(signature) => Ok(signature),
                        Err(e) => Err(RecipientFailure::Chain(e)),
                    }
                },
                None => Err(RecipientFailure::Derivation),
            };
            outcomes.push(RecipientOutcome { recipient, result });
            i = i + 1;
        }
        Ok(outcomes)
    }

    /// Airdrop `amount` base units to each recipient in one accumulated
    /// transaction: all of it commits or none of it does. The batch holds,
    /// per recipient in list order, a creation of its associated account
    /// when that account does not exist yet, then the mint-to.
    pub fn batch_airdrop_to_recipients(
        &mut self,
        token_mint: &str,
        recipients: &Vec<Address>,
        amount: u64,
    ) -> (r: Result<String, ExecutorError>)
        ensures
            final(self).payer == old(self).payer,
            match r {
                Ok(_) => {
                    &&& address_of_text(token_mint@) is Some
                    &&& forall|k: int|
                        0 <= k < recipients@.len() ==> derived_ata_of(
                            (#[trigger] recipients@[k])@,
                            address_of_text(token_mint@)->Some_0,
                        ) is Some
                },
                Err(ExecutorError::InvalidMint) => address_of_text(token_mint@) is None,
                Err(ExecutorError::DerivationFailed) => {
                    &&& address_of_text(token_mint@) is Some
                    &&& exists|k: int|
                        0 <= k < recipients@.len() && derived_ata_of(
                            (#[trigger] recipients@[k])@,
                            address_of_text(token_mint@)->Some_0,
                        ) is None
                },
                Err(ExecutorError::Chain(_)) => {
                    &&& address_of_text(token_mint@) is Some
                    &&& forall|k: int|
                        0 <= k < recipients@.len() ==> derived_ata_of(
                            (#[trigger] recipients@[k])@,
                            address_of_text(token_mint@)->Some_0,
                        ) is Some
                },
                Err(_) => false,
            },
    {
        let mint = match address_from_text(token_mint) {
            Some(m) => m,
            None => {
                return Err(ExecutorError::InvalidMint);
            },
        };
        let payer = self.payer;
        let n = recipients.len();
        let mut batch: Vec<PlannedInstruction> = Vec::new();
        let ghost mut flags: Seq<bool> = Seq::empty();
        let mut i: usize = 0;
        proof {
            assert(recipient_views(recipients@.take(0)) =~= Seq::<Seq<u8>>::empty());
            assert(plan_views(batch@) =~= Seq::<crate::plan::InstructionModel>::empty());
        }
        while i < n
            invariant
                i <= n,
                n == recipients@.len(),
                self.payer == payer,
                payer == old(self).payer,
                address_of_text(token_mint@) == Some(mint@),
                flags.len() == i,
                forall|k: int|
                    0 <= k < i ==> derived_ata_of((#[trigger] recipients@[k])@, mint@) is Some,
                plan_views(batch@) == spec_batch_plan(
                    payer@,
                    mint@,
                    recipient_views(recipients@.take(i as int)),
                    flags,
                    amount,
                ),
            decreases n - i,
        {
            let recipient = recipients[i];
            let ata = match get_associated_token_address(&recipient, &mint) {
                Some(a) => a,
                None => {
                    proof {
                        assert(derived_ata_of(
                            (recipients@[i as int])@,
                            address_of_text(token_mint@)->Some_0,
                        ) is None);
                    }
                    return Err(ExecutorError::DerivationFailed);
                },
            };
            let ata_exists = self.port.account_exists(&ata);
            let mut contribution = plan_for_recipient(
                &payer,
                &mint,
                &recipient,
                &ata,
                ata_exists,
                amount,
            );
            let ghost old_batch = batch@;
            let ghost contrib_views = plan_views(contribution@);
            batch.append(&mut contribution);
            proof {
                let rs = recipient_views(recipients@.take(i as int));
                crate::plan::lemma_batch_plan_snoc(
                    payer@,
                    mint@,
                    rs,
                    flags,
                    recipient@,
                    ata_exists,
                    amount,
                );
                assert(recipient_views(recipients@.take(i as int + 1)) =~= rs.push(recipient@));
                flags = flags.push(ata_exists);
                assert(plan_views(batch@) =~= plan_views(old_batch) + contrib_views);
            }
            i = i + 1;
        }
        proof {
            assert(recipients@.take(n as int) =~= recipients@);
        }
        let instructions = lower_plan(&batch);
        proof {
            // What is handed to the port: the whole accumulated batch, one
            // contribution per recipient in list order, under the existence
            // answers the port gave.
            assert(lowered_views(instructions@) == spec_batch_plan(
                payer@,
                mint@,
                recipient_views(recipients@),
                flags,
                amount,
            ));
        }
        match self.port.submit_batch(&instructions, false) {
            Ok(signature) => Ok(signature),
            Err(e) => Err(ExecutorError::Chain(e)),
        }
    }

    /// Report the token balance of `address` for `token_mint`: the balance
    /// of the derived associated account, read as an unsigned decimal
    /// number; a missing account or failed query reads as zero.
    pub fn check_balance(&mut self, token_mint: &str, address: &str) -> (r: Result<
        u64,
        ExecutorError,
    >)
        ensures
            final(self).payer == old(self).payer,
            (r == Err::<u64, ExecutorError>(ExecutorError::InvalidMint)) <==> address_of_text(
                token_mint@,
            ) is None,
            (r == Err::<u64, ExecutorError>(ExecutorError::InvalidAddress)) <==> (address_of_text(
                token_mint@,
            ) is Some && address_of_text(address@) is None),
            (r == Err::<u64, ExecutorError>(ExecutorError::DerivationFailed)) <==> (address_of_text(
                token_mint@,
            ) is Some && address_of_text(address@) is Some && derived_ata_of(
                address_of_text(address@)->Some_0,
                address_of_text(token_mint@)->Some_0,
            ) is None),
            address_of_text(token_mint@) is Some && address_of_text(address@) is Some
                && derived_ata_of(
                address_of_text(address@)->Some_0,
                address_of_text(token_mint@)->Some_0,
            ) is Some ==> (r is Ok || r == Err::<u64, ExecutorError>(
                ExecutorError::MalformedBalance,
            )),
    {
        let mint = match address_from_text(token_mint) {
            Some(m) => m,
            None => {
                return Err(ExecutorError::InvalidMint);
            },
        };
        let owner = match address_from_text(address) {
            Some(a) => a,
            None => {
                return Err(ExecutorError::InvalidAddress);
            },
        };
        let ata = match get_associated_token_address(&owner, &mint) {
            Some(a) => a,
            None => {
                return Err(ExecutorError::DerivationFailed);
            },
        };
        let response = self.port.token_balance(&ata);
        balance_from_response(&response)
    }
}

} // verus!
