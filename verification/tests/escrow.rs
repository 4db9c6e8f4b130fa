use escrow_program::error::{EscrowError, ProcessError};
use solana_program::program_pack::Pack;
use escrow_program::instruction::EscrowInstruction;
use escrow_program::processor::{HostAccount, ProcessOutcome, Processor};
use escrow_program::state::Escrow;
use escrow_program::token_account::spl_token_program_id;

fn le8(v: u64) -> Vec<u8> {
    v.to_le_bytes().to_vec()
}

fn key(k: u8) -> Vec<u8> {
    vec![k; 32]
}

fn acct(k: u8, owner: Vec<u8>, lamports: u64, data: Vec<u8>, is_signer: bool) -> HostAccount {
    HostAccount { key: key(k), owner, lamports, data, is_signer }
}

fn init_instruction(amount: u64) -> Vec<u8> {
    let mut v = vec![0u8];
    v.extend_from_slice(&amount.to_le_bytes());
    v
}

fn exchange_instruction(amount: u64) -> Vec<u8> {
    let mut v = vec![1u8];
    v.extend_from_slice(&amount.to_le_bytes());
    v
}

/// A token account buffer the token-custody program accepts: 165 bytes,
/// balance at 64..72, state byte Initialized.
fn token_account_data(amount: u64) -> Vec<u8> {
    let mut v = vec![0u8; 165];
    v[64..72].copy_from_slice(&amount.to_le_bytes());
    v[108] = 1;
    v
}

fn init_accounts() -> Vec<HostAccount> {
    vec![
        acct(1, key(0), 10, vec![], true),                       // initializer (signer)
        acct(2, key(0), 10, vec![], false),                      // temp token account
        acct(3, spl_token_program_id(), 10, vec![], false),      // token to receive
        acct(4, key(0), 1_000_000, vec![0u8; 105], false),       // escrow account
        acct(5, key(0), 1, vec![], false),                       // rent sysvar
        acct(6, key(0), 1, vec![], false),                       // token program
    ]
}

fn exchange_accounts(custody_balance: u64, escrow_data: Vec<u8>) -> Vec<HostAccount> {
    vec![
        acct(7, key(0), 10, vec![], true),                        // taker (signer)
        acct(8, key(0), 10, vec![], false),                       // taker's sending account
        acct(10, key(0), 10, vec![], false),                      // taker's receiving account
        acct(2, key(0), 10, token_account_data(custody_balance), false), // custody account
        acct(1, key(0), 100, vec![], false),                      // initializer's main account
        acct(3, key(0), 10, vec![], false),                       // initializer's receiving account
        acct(4, key(0), 50, escrow_data, false),                  // escrow account
        acct(6, key(0), 1, vec![], false),                        // token program
        acct(11, key(0), 1, vec![], false),                       // derived-authority account
    ]
}

fn program_id() -> Vec<u8> {
    vec![9u8; 32]
}

fn expected_authority() -> (Vec<u8>, u8) {
    let pid = solana_program::pubkey::Pubkey::new_from_array([9u8; 32]);
    let (pda, bump) = solana_program::pubkey::Pubkey::find_program_address(&[b"escrow"], &pid);
    (pda.to_bytes().to_vec(), bump)
}

#[test]
fn decode_init() {
    let data = [0u8, 0xE8, 0x03, 0, 0, 0, 0, 0, 0];
    let r = EscrowInstruction::unpack(&data);
    assert_eq!(r, Ok(EscrowInstruction::InitEscrow { amount: 1000 }));
}

#[test]
fn decode_empty_fails() {
    let r = EscrowInstruction::unpack(&[]);
    assert_eq!(r, Err(EscrowError::InvalidInstruction));
}

#[test]
fn decode_exchange() {
    let mut data = vec![1u8];
    data.extend_from_slice(&42u64.to_le_bytes());
    let r = EscrowInstruction::unpack(&data);
    assert_eq!(r, Ok(EscrowInstruction::Exchange { amount: 42 }));
}

#[test]
fn decode_bad_tag_fails() {
    let mut data = vec![2u8];
    data.extend_from_slice(&42u64.to_le_bytes());
    let r = EscrowInstruction::unpack(&data);
    assert_eq!(r, Err(EscrowError::InvalidInstruction));
}

#[test]
fn decode_short_operand_fails() {
    let data = [0u8, 1, 2, 3, 4, 5, 6, 7];
    let r = EscrowInstruction::unpack(&data);
    assert_eq!(r, Err(EscrowError::InvalidInstruction));
}

#[test]
fn decode_ignores_trailing_bytes() {
    let mut data = vec![0u8];
    data.extend_from_slice(&7u64.to_le_bytes());
    data.extend_from_slice(&[0xAA, 0xBB, 0xCC]);
    let r = EscrowInstruction::unpack(&data);
    assert_eq!(r, Ok(EscrowInstruction::InitEscrow { amount: 7 }));
}

#[test]
fn unpack_amount_reads_little_endian() {
    let bytes = 0x0102030405060708u64.to_le_bytes();
    assert_eq!(EscrowInstruction::unpack_amount(&bytes), Ok(0x0102030405060708));
    assert_eq!(
        EscrowInstruction::unpack_amount(&bytes[..7]),
        Err(EscrowError::InvalidInstruction)
    );
}

#[test]
fn error_codes_are_stable() {
    assert_eq!(EscrowError::InvalidInstruction.code(), 0);
    assert_eq!(EscrowError::NotRentExempt.code(), 1);
    assert_eq!(EscrowError::ExpectedAmountMismatch.code(), 2);
    assert_eq!(EscrowError::AmountOverflow.code(), 3);
}

#[test]
fn record_round_trip() {
    let record = Escrow {
        is_initialized: true,
        initializer_pubkey: key(0x11),
        temp_token_account_pubkey: key(0x22),
        initializer_token_to_receive_account_pubkey: key(0x33),
        expected_amount: 42,
    };
    let packed = record.pack();
    assert_eq!(packed.len(), 105);
    let decoded = Escrow::unpack_unchecked(&packed).unwrap();
    assert_eq!(decoded, record);
    let decoded_checked = Escrow::unpack(&packed).unwrap();
    assert_eq!(decoded_checked, record);
}

#[test]
fn record_unpack_rejects_wrong_width() {
    assert_eq!(
        Escrow::unpack_unchecked(&[0u8; 104]),
        Err(ProcessError::InvalidAccountData)
    );
    assert_eq!(
        Escrow::unpack_unchecked(&[0u8; 106]),
        Err(ProcessError::InvalidAccountData)
    );
}

#[test]
fn record_unpack_rejects_uninitialized() {
    let zeroed = vec![0u8; 105];
    assert!(Escrow::unpack_unchecked(&zeroed).is_ok());
    assert_eq!(Escrow::unpack(&zeroed), Err(ProcessError::InvalidAccountData));
}

#[test]
fn spl_token_id_matches_published_identity() {
    assert_eq!(spl_token_program_id(), spl_token::id().to_bytes().to_vec());
}

#[test]
fn init_happy_path() {
    let r = Processor::process(&program_id(), init_accounts(), &init_instruction(1000), true);
    let o = match r {
        Ok(ProcessOutcome::Init(o)) => o,
        other => panic!("expected init outcome, got {:?}", matches!(other, Ok(_))),
    };
    assert_eq!(o.escrow_data.len(), 105);
    assert_eq!(o.escrow_data[0], 1);
    assert_eq!(&o.escrow_data[1..33], key(1).as_slice());
    assert_eq!(&o.escrow_data[33..65], key(2).as_slice());
    assert_eq!(&o.escrow_data[65..97], key(3).as_slice());
    assert_eq!(&o.escrow_data[97..105], le8(1000).as_slice());
    assert_eq!(o.authority_change.token_program, key(6));
    assert_eq!(o.authority_change.account, key(2));
    assert_eq!(o.authority_change.current_authority, key(1));
    let (pda, _) = expected_authority();
    assert_eq!(o.authority_change.new_authority, pda);
}

#[test]
fn init_requires_signature() {
    let mut accounts = init_accounts();
    accounts[0].is_signer = false;
    let r = Processor::process(&program_id(), accounts, &init_instruction(1000), true);
    assert!(matches!(r, Err(ProcessError::MissingSignature)));
}

#[test]
fn init_requires_token_program_owner() {
    let mut accounts = init_accounts();
    accounts[2].owner = key(0x55);
    let r = Processor::process(&program_id(), accounts, &init_instruction(1000), true);
    assert!(matches!(r, Err(ProcessError::WrongOwner)));
}

#[test]
fn init_requires_rent_exemption() {
    let r = Processor::process(&program_id(), init_accounts(), &init_instruction(1000), false);
    assert!(matches!(r, Err(ProcessError::NotRentExempt)));
}

#[test]
fn init_requires_account_count() {
    let mut accounts = init_accounts();
    accounts.pop();
    let r = Processor::process(&program_id(), accounts, &init_instruction(1000), true);
    assert!(matches!(r, Err(ProcessError::NotEnoughAccountKeys)));
}

#[test]
fn init_twice_fails_already_initialized() {
    let first = Processor::process(&program_id(), init_accounts(), &init_instruction(1000), true);
    let o = match first {
        Ok(ProcessOutcome::Init(o)) => o,
        _ => panic!("first init failed"),
    };
    // The same attempt against the state the first init persisted.
    let mut accounts = init_accounts();
    accounts[3].data = o.escrow_data.clone();
    let second = Processor::process(&program_id(), accounts, &init_instruction(1000), true);
    assert!(matches!(second, Err(ProcessError::AlreadyInitialized)));
    // A failed unit persists nothing: the record of the first init stands.
    assert_eq!(o.escrow_data[0], 1);
}

#[test]
fn exchange_rejects_mismatched_amount() {
    let record = Escrow {
        is_initialized: true,
        initializer_pubkey: key(1),
        temp_token_account_pubkey: key(2),
        initializer_token_to_receive_account_pubkey: key(3),
        expected_amount: 1000,
    };
    let accounts = exchange_accounts(500, record.pack());
    let before = accounts[6].data.clone();
    let r = Processor::process(&program_id(), accounts, &exchange_instruction(400), true);
    assert!(matches!(r, Err(ProcessError::ExpectedAmountMismatch)));
    // A failure carries no transfer requests and leaves the record unchanged.
    assert_eq!(before, record.pack());
}

#[test]
fn exchange_happy_path_after_init() {
    let init = Processor::process(&program_id(), init_accounts(), &init_instruction(1000), true);
    let init_outcome = match init {
        Ok(ProcessOutcome::Init(o)) => o,
        _ => panic!("init failed"),
    };
    let accounts = exchange_accounts(500, init_outcome.escrow_data.clone());
    let r = Processor::process(&program_id(), accounts, &exchange_instruction(500), true);
    let o = match r {
        Ok(ProcessOutcome::Exchange(o)) => o,
        _ => panic!("exchange failed"),
    };
    let (pda, bump) = expected_authority();
    // Token B moves taker -> initializer, for the recorded expected amount.
    assert_eq!(o.pay_initializer.token_program, key(6));
    assert_eq!(o.pay_initializer.source, key(8));
    assert_eq!(o.pay_initializer.destination, key(3));
    assert_eq!(o.pay_initializer.amount, 1000);
    assert_eq!(o.pay_initializer.authority, key(7));
    assert!(!o.pay_initializer.authority_is_derived);
    // Token A moves custody -> taker, for the full custody balance.
    assert_eq!(o.pay_taker.source, key(2));
    assert_eq!(o.pay_taker.destination, key(10));
    assert_eq!(o.pay_taker.amount, 500);
    assert_eq!(o.pay_taker.authority, pda);
    assert!(o.pay_taker.authority_is_derived);
    // The custody account closes, refunding the initializer.
    assert_eq!(o.close_custody.account, key(2));
    assert_eq!(o.close_custody.destination, key(1));
    assert_eq!(o.close_custody.authority, pda);
    // The escrow account's balance merges into the initializer's and the
    // record is erased, beyond reuse.
    assert_eq!(o.initializer_lamports, 150);
    assert_eq!(o.escrow_lamports, 0);
    assert!(o.escrow_data.is_empty());
    assert_eq!(o.authority_bump, bump);
}

#[test]
fn exchange_requires_signature() {
    let record = Escrow {
        is_initialized: true,
        initializer_pubkey: key(1),
        temp_token_account_pubkey: key(2),
        initializer_token_to_receive_account_pubkey: key(3),
        expected_amount: 1000,
    };
    let mut accounts = exchange_accounts(500, record.pack());
    accounts[0].is_signer = false;
    let r = Processor::process(&program_id(), accounts, &exchange_instruction(500), true);
    assert!(matches!(r, Err(ProcessError::MissingSignature)));
}

#[test]
fn exchange_rejects_mismatched_identities() {
    let record = Escrow {
        is_initialized: true,
        initializer_pubkey: key(0x66), // not the supplied main account
        temp_token_account_pubkey: key(2),
        initializer_token_to_receive_account_pubkey: key(3),
        expected_amount: 1000,
    };
    let accounts = exchange_accounts(500, record.pack());
    let r = Processor::process(&program_id(), accounts, &exchange_instruction(500), true);
    assert!(matches!(r, Err(ProcessError::InvalidAccountData)));
}

#[test]
fn exchange_rejects_uninitialized_record() {
    let accounts = exchange_accounts(500, vec![0u8; 105]);
    let r = Processor::process(&program_id(), accounts, &exchange_instruction(500), true);
    assert!(matches!(r, Err(ProcessError::InvalidAccountData)));
}

#[test]
fn exchange_rejects_malformed_custody_account() {
    let record = Escrow {
        is_initialized: true,
        initializer_pubkey: key(1),
        temp_token_account_pubkey: key(2),
        initializer_token_to_receive_account_pubkey: key(3),
        expected_amount: 1000,
    };
    let mut accounts = exchange_accounts(500, record.pack());
    accounts[3].data = vec![0u8; 164]; // wrong width
    let r = Processor::process(&program_id(), accounts, &exchange_instruction(500), true);
    assert!(matches!(r, Err(ProcessError::InvalidAccountData)));
}

#[test]
fn exchange_rejects_rent_credit_overflow() {
    let record = Escrow {
        is_initialized: true,
        initializer_pubkey: key(1),
        temp_token_account_pubkey: key(2),
        initializer_token_to_receive_account_pubkey: key(3),
        expected_amount: 1000,
    };
    let mut accounts = exchange_accounts(500, record.pack());
    accounts[4].lamports = u64::MAX; // initializer's main account
    let r = Processor::process(&program_id(), accounts, &exchange_instruction(500), true);
    assert!(matches!(r, Err(ProcessError::AmountOverflow)));
}

#[test]
fn custody_balance_read_matches_token_program_layout() {
    // Build the custody buffer with the token-custody crate itself, so a
    // wrapper that misread the layout would fail here.
    let account = spl_token::state::Account {
        mint: spl_token::solana_program::pubkey::Pubkey::new_from_array([4u8; 32]),
        owner: spl_token::solana_program::pubkey::Pubkey::new_from_array([1u8; 32]),
        amount: 500,
        delegate: spl_token::solana_program::program_option::COption::None,
        state: spl_token::state::AccountState::Initialized,
        is_native: spl_token::solana_program::program_option::COption::None,
        delegated_amount: 0,
        close_authority: spl_token::solana_program::program_option::COption::None,
    };
    let mut data = vec![0u8; 165];
    spl_token::state::Account::pack(account, &mut data).unwrap();
    let record = Escrow {
        is_initialized: true,
        initializer_pubkey: key(1),
        temp_token_account_pubkey: key(2),
        initializer_token_to_receive_account_pubkey: key(3),
        expected_amount: 1000,
    };
    let mut accounts = exchange_accounts(0, record.pack());
    accounts[3].data = data;
    // Claiming 500 matches the packed balance; claiming 400 must not.
    let ok = Processor::process(&program_id(), accounts.clone(), &exchange_instruction(500), true);
    assert!(matches!(ok, Ok(ProcessOutcome::Exchange(_))));
    let bad = Processor::process(&program_id(), accounts, &exchange_instruction(400), true);
    assert!(matches!(bad, Err(ProcessError::ExpectedAmountMismatch)));
}

#[test]
fn process_rejects_malformed_instruction() {
    let r = Processor::process(&program_id(), init_accounts(), &[], true);
    assert!(matches!(r, Err(ProcessError::InvalidInstruction)));
    let mut bad_tag = vec![9u8];
    bad_tag.extend_from_slice(&1000u64.to_le_bytes());
    let r = Processor::process(&program_id(), init_accounts(), &bad_tag, true);
    assert!(matches!(r, Err(ProcessError::InvalidInstruction)));
}

#[test]
fn exchange_requires_account_count() {
    let record = Escrow {
        is_initialized: true,
        initializer_pubkey: key(1),
        temp_token_account_pubkey: key(2),
        initializer_token_to_receive_account_pubkey: key(3),
        expected_amount: 1000,
    };
    let mut accounts = exchange_accounts(500, record.pack());
    accounts.pop();
    let r = Processor::process(&program_id(), accounts, &exchange_instruction(500), true);
    assert!(matches!(r, Err(ProcessError::NotEnoughAccountKeys)));
}
