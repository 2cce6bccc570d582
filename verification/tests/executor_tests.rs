use solana_sdk::instruction::Instruction;
use solana_sdk::program_pack::Pack;
use solana_sdk::pubkey::Pubkey;
use spl_airdropper::address::{get_associated_token_address, Address};
use spl_airdropper::executor::{
    ChainError, ChainPort, ExecutorError, RecipientFailure, TokenExecutor,
};

struct FakePort {
    fresh_mint: Address,
    rent: u64,
    existing: Vec<Address>,
    balance: Option<String>,
    fail_submissions_at: Vec<usize>,
    submissions: Vec<(Vec<Instruction>, bool)>,
    applied_mint_to: usize,
}

impl FakePort {
    fn new() -> FakePort {
        FakePort {
            fresh_mint: Address::new(Pubkey::new_unique().to_bytes()),
            rent: 1_461_600,
            existing: Vec::new(),
            balance: None,
            fail_submissions_at: Vec::new(),
            submissions: Vec::new(),
            applied_mint_to: 0,
        }
    }
}

const MINT_TO_TAG: u8 = 7;

impl ChainPort for FakePort {
    fn fresh_mint_address(&mut self) -> Result<Address, ChainError> {
        Ok(self.fresh_mint)
    }

    fn minimum_balance_for_rent_exemption(&mut self, _size: u64) -> Result<u64, ChainError> {
        Ok(self.rent)
    }

    fn account_exists(&mut self, address: &Address) -> bool {
        self.existing.contains(address)
    }

    fn token_balance(&mut self, _address: &Address) -> Result<String, ChainError> {
        match &self.balance {
            Some(s) => Ok(s.clone()),
            None => Err(ChainError {
                message: String::from("account not found"),
            }),
        }
    }

    fn submit_batch(
        &mut self,
        instructions: &Vec<Instruction>,
        mint_signs: bool,
    ) -> Result<String, ChainError> {
        let index = self.submissions.len();
        self.submissions.push((instructions.clone(), mint_signs));
        if self.fail_submissions_at.contains(&index) {
            return Err(ChainError {
                message: format!("submission {} rejected", index),
            });
        }
        for ix in instructions {
            if ix.program_id == spl_token::id() && ix.data.first() == Some(&MINT_TO_TAG) {
                self.applied_mint_to += 1;
            }
        }
        Ok(format!("sig-{}", index))
    }
}

fn fresh_address() -> Address {
    Address::new(Pubkey::new_unique().to_bytes())
}

#[test]
fn per_recipient_airdrop_attempts_every_recipient() {
    let mint_text = Pubkey::new_unique().to_string();
    let recipients = vec![fresh_address(), fresh_address(), fresh_address()];
    let mut port = FakePort::new();
    port.fail_submissions_at = vec![1];
    let mut executor = TokenExecutor::new(port, fresh_address());
    let outcomes = executor
        .airdrop_to_recipients(&mint_text, 50, &recipients)
        .unwrap();
    assert_eq!(outcomes.len(), 3);
    assert!(outcomes[0].result.is_ok());
    assert!(matches!(
        outcomes[1].result,
        Err(RecipientFailure::Chain(_))
    ));
    assert!(outcomes[2].result.is_ok());
    for (outcome, recipient) in outcomes.iter().zip(recipients.iter()) {
        assert_eq!(outcome.recipient, *recipient);
    }
    assert_eq!(executor.port.submissions.len(), 3);
    assert_eq!(executor.port.applied_mint_to, 2);
}

#[test]
fn per_recipient_airdrop_creates_missing_accounts_only() {
    let mint_text = Pubkey::new_unique().to_string();
    let mint = Address::new(mint_text.parse::<Pubkey>().unwrap().to_bytes());
    let with_account = fresh_address();
    let without_account = fresh_address();
    let recipients = vec![with_account, without_account];
    let mut port = FakePort::new();
    port.existing = vec![get_associated_token_address(&with_account, &mint).unwrap()];
    let mut executor = TokenExecutor::new(port, fresh_address());
    let outcomes = executor
        .airdrop_to_recipients(&mint_text, 10, &recipients)
        .unwrap();
    assert!(outcomes.iter().all(|o| o.result.is_ok()));
    let submissions = &executor.port.submissions;
    assert_eq!(submissions.len(), 2);
    assert_eq!(submissions[0].0.len(), 1);
    assert_eq!(submissions[1].0.len(), 2);
    assert_eq!(submissions[1].0[0].program_id, spl_associated_token_account::id());
    assert_eq!(submissions[1].0[1].program_id, spl_token::id());
    assert!(!submissions[0].1);
}

#[test]
fn airdrop_rejects_a_malformed_mint_before_any_submission() {
    let recipients = vec![fresh_address()];
    let mut executor = TokenExecutor::new(FakePort::new(), fresh_address());
    let err = executor
        .airdrop_to_recipients("not-a-mint", 10, &recipients)
        .unwrap_err();
    assert_eq!(err, ExecutorError::InvalidMint);
    assert!(executor.port.submissions.is_empty());
}

#[test]
fn batch_airdrop_submits_one_transaction_for_all() {
    let mint_text = Pubkey::new_unique().to_string();
    let recipients = vec![fresh_address(), fresh_address()];
    let mut executor = TokenExecutor::new(FakePort::new(), fresh_address());
    let signature = executor
        .batch_airdrop_to_recipients(&mint_text, &recipients, 25)
        .unwrap();
    assert_eq!(signature, "sig-0");
    let submissions = &executor.port.submissions;
    assert_eq!(submissions.len(), 1);
    let batch = &submissions[0].0;
    assert_eq!(batch.len(), 4);
    assert_eq!(batch[0].program_id, spl_associated_token_account::id());
    assert_eq!(batch[1].program_id, spl_token::id());
    assert_eq!(batch[2].program_id, spl_associated_token_account::id());
    assert_eq!(batch[3].program_id, spl_token::id());
    assert_eq!(batch[1].data[1..9], 25u64.to_le_bytes());
    assert_eq!(executor.port.applied_mint_to, 2);
}

#[test]
fn failed_batch_airdrop_applies_nothing() {
    let mint_text = Pubkey::new_unique().to_string();
    let recipients = vec![fresh_address(), fresh_address()];
    let mut port = FakePort::new();
    port.fail_submissions_at = vec![0];
    let mut executor = TokenExecutor::new(port, fresh_address());
    let err = executor
        .batch_airdrop_to_recipients(&mint_text, &recipients, 25)
        .unwrap_err();
    assert!(matches!(err, ExecutorError::Chain(_)));
    assert_eq!(executor.port.submissions.len(), 1);
    assert_eq!(executor.port.submissions[0].0.len(), 4);
    assert_eq!(executor.port.applied_mint_to, 0);
}

#[test]
fn create_token_builds_the_two_instruction_batch() {
    let mut executor = TokenExecutor::new(FakePort::new(), fresh_address());
    let mint = executor.create_token(9).unwrap();
    assert_eq!(mint, executor.port.fresh_mint);
    let submissions = &executor.port.submissions;
    assert_eq!(submissions.len(), 1);
    assert!(submissions[0].1);
    let batch = &submissions[0].0;
    assert_eq!(batch.len(), 2);
    assert_eq!(batch[0].program_id, solana_system_interface::program::ID);
    assert_eq!(batch[1].program_id, spl_token::id());
    // CreateAccount is bincode: a 4-byte tag, then lamports and space.
    assert_eq!(batch[0].data[0..4], [0, 0, 0, 0]);
    assert_eq!(batch[0].data[4..12], 1_461_600u64.to_le_bytes());
    assert_eq!(batch[0].data[12..20], 82u64.to_le_bytes());
    // InitializeMint is tag 0 followed by the decimals byte.
    assert_eq!(batch[1].data[0], 0);
    assert_eq!(batch[1].data[1], 9);
}

#[test]
fn mint_account_space_matches_the_token_program_layout() {
    assert_eq!(
        spl_airdropper::lower::mint_account_space(),
        spl_token::state::Mint::LEN as u64
    );
}

#[test]
fn check_balance_on_a_missing_account_is_zero() {
    let mint_text = Pubkey::new_unique().to_string();
    let wallet_text = Pubkey::new_unique().to_string();
    let mut executor = TokenExecutor::new(FakePort::new(), fresh_address());
    assert_eq!(executor.check_balance(&mint_text, &wallet_text), Ok(0));
}

#[test]
fn check_balance_reads_the_reported_number() {
    let mint_text = Pubkey::new_unique().to_string();
    let wallet_text = Pubkey::new_unique().to_string();
    let mut port = FakePort::new();
    port.balance = Some(String::from("5500"));
    let mut executor = TokenExecutor::new(port, fresh_address());
    assert_eq!(executor.check_balance(&mint_text, &wallet_text), Ok(5500));
}

#[test]
fn check_balance_rejects_malformed_arguments() {
    let valid = Pubkey::new_unique().to_string();
    let mut executor = TokenExecutor::new(FakePort::new(), fresh_address());
    assert_eq!(
        executor.check_balance("bogus", &valid),
        Err(ExecutorError::InvalidMint)
    );
    assert_eq!(
        executor.check_balance(&valid, "bogus"),
        Err(ExecutorError::InvalidAddress)
    );
}
