//! The processor state machine: validates every supplied account, applies the
//! state transition, and constructs the custody-transfer requests that the
//! external token-custody program carries out.
//!
//! The machine is stateless between invocations: all persisted state lives in
//! the escrow record, and each transition is one indivisible unit that the
//! host commits or rolls back whole. A transition therefore returns either an
//! error (no effect at all) or an outcome value naming every write and every
//! custody request the caller must carry out.

use vstd::prelude::*;

use crate::authority::{derived_authority_of, find_escrow_authority};
use crate::bytes::{bytes_equal, clone_bytes};
use crate::error::ProcessError;
use crate::instruction::EscrowInstruction;
use crate::state::{spec_pack_escrow, spec_unpack_escrow, Escrow, EscrowView};
use crate::token_account::{
    spec_spl_token_id, spec_token_account_amount, spec_valid_token_account,
    spl_token_program_id, unpack_token_account_amount,
};

verus! {

/// What the state machine reads of one host-supplied account buffer: its
/// identity, its owning program's identity, its balance, its data, and
/// whether it signed the enclosing transaction.
#[derive(Clone, Debug)]
pub struct HostAccount {
    /// The account's identity (a 32-byte public key).
    pub key: Vec<u8>,
    /// The identity of the program that owns the account.
    pub owner: Vec<u8>,
    /// The account's balance.
    pub lamports: u64,
    /// The account's data.
    pub data: Vec<u8>,
    /// Whether the account signed the transaction.
    pub is_signer: bool,
}

impl HostAccount {
    /// Identities are 32-byte public keys.
    pub open spec fn wf(&self) -> bool {
        &&& self.key@.len() == 32
        &&& self.owner@.len() == 32
    }
}

/// The positional account list of the Init transition, with one named field
/// per required account.
pub struct InitAccounts {
    /// The party initializing the escrow; must have signed.
    pub initializer: HostAccount,
    /// The temporary token A account the escrow takes custody of (writable).
    pub temp_token_account: HostAccount,
    /// The initializer's token B receiving account; must be owned by the
    /// token-custody program.
    pub token_to_receive_account: HostAccount,
    /// The escrow account the record is written into (writable).
    pub escrow_account: HostAccount,
    /// The rent sysvar account.
    pub rent_sysvar: HostAccount,
    /// The token-custody program's account.
    pub token_program: HostAccount,
}

impl InitAccounts {
    /// Identities are 32-byte public keys.
    pub open spec fn wf(&self) -> bool {
        &&& self.initializer.wf()
        &&& self.temp_token_account.wf()
        &&& self.token_to_receive_account.wf()
        &&& self.escrow_account.wf()
        &&& self.rent_sysvar.wf()
        &&& self.token_program.wf()
    }

    /// The list an Init account list of length at least 6 names, in order.
    pub open spec fn spec_from(s: Seq<HostAccount>) -> InitAccounts
        recommends
            s.len() >= 6,
    {
        InitAccounts {
            initializer: s[0],
            temp_token_account: s[1],
            token_to_receive_account: s[2],
            escrow_account: s[3],
            rent_sysvar: s[4],
            token_program: s[5],
        }
    }

    /// Validates the account count and names each required position.
    pub fn from_list(accounts: Vec<HostAccount>) -> (r: Result<InitAccounts, ProcessError>)
        ensures
            accounts@.len() >= 6 ==> r == Ok::<InitAccounts, ProcessError>(
                Self::spec_from(accounts@),
            ),
            accounts@.len() < 6 ==> r == Err::<InitAccounts, ProcessError>(
                ProcessError::NotEnoughAccountKeys,
            ),
    {
        let mut accounts = accounts;
        if accounts.len() < 6 {
            return Err(ProcessError::NotEnoughAccountKeys);
        }
        let initializer = accounts.remove(0);
        let temp_token_account = accounts.remove(0);
        let token_to_receive_account = accounts.remove(0);
        let escrow_account = accounts.remove(0);
        let rent_sysvar = accounts.remove(0);
        let token_program = accounts.remove(0);
        Ok(InitAccounts {
            initializer,
            temp_token_account,
            token_to_receive_account,
            escrow_account,
            rent_sysvar,
            token_program,
        })
    }
}

/// The positional account list of the Exchange transition, with one named
/// field per required account.
pub struct ExchangeAccounts {
    /// The party taking the trade; must have signed.
    pub taker: HostAccount,
    /// The taker's token B account the payment leaves (writable).
    pub takers_sending_token_account: HostAccount,
    /// The taker's token A account the custody balance arrives in (writable).
    pub takers_token_to_receive_account: HostAccount,
    /// The custody (temporary token A) account the escrow governs (writable).
    pub pdas_temp_token_account: HostAccount,
    /// The initializer's main account, receiving rent-back (writable).
    pub initializers_main_account: HostAccount,
    /// The initializer's token B receiving account (writable).
    pub initializers_token_to_receive_account: HostAccount,
    /// The escrow account holding the record (writable).
    pub escrow_account: HostAccount,
    /// The token-custody program's account.
    pub token_program: HostAccount,
    /// The derived-authority account.
    pub pda_account: HostAccount,
}

impl ExchangeAccounts {
    /// Identities are 32-byte public keys.
    pub open spec fn wf(&self) -> bool {
        &&& self.taker.wf()
        &&& self.takers_sending_token_account.wf()
        &&& self.takers_token_to_receive_account.wf()
        &&& self.pdas_temp_token_account.wf()
        &&& self.initializers_main_account.wf()
        &&& self.initializers_token_to_receive_account.wf()
        &&& self.escrow_account.wf()
        &&& self.token_program.wf()
        &&& self.pda_account.wf()
    }

    /// The list an Exchange account list of length at least 9 names, in
    /// order.
    pub open spec fn spec_from(s: Seq<HostAccount>) -> ExchangeAccounts
        recommends
            s.len() >= 9,
    {
        ExchangeAccounts {
            taker: s[0],
            takers_sending_token_account: s[1],
            takers_token_to_receive_account: s[2],
            pdas_temp_token_account: s[3],
            initializers_main_account: s[4],
            initializers_token_to_receive_account: s[5],
            escrow_account: s[6],
            token_program: s[7],
            pda_account: s[8],
        }
    }

    /// Validates the account count and names each required position.
    pub fn from_list(accounts: Vec<HostAccount>) -> (r: Result<ExchangeAccounts, ProcessError>)
        ensures
            accounts@.len() >= 9 ==> r == Ok::<ExchangeAccounts, ProcessError>(
                Self::spec_from(accounts@),
            ),
            accounts@.len() < 9 ==> r == Err::<ExchangeAccounts, ProcessError>(
                ProcessError::NotEnoughAccountKeys,
            ),
    {
        let mut accounts = accounts;
        if accounts.len() < 9 {
            return Err(ProcessError::NotEnoughAccountKeys);
        }
        let taker = accounts.remove(0);
        let takers_sending_token_account = accounts.remove(0);
        let takers_token_to_receive_account = accounts.remove(0);
        let pdas_temp_token_account = accounts.remove(0);
        let initializers_main_account = accounts.remove(0);
        let initializers_token_to_receive_account = accounts.remove(0);
        let escrow_account = accounts.remove(0);
        let token_program = accounts.remove(0);
        let pda_account = accounts.remove(0);
        Ok(ExchangeAccounts {
            taker,
            takers_sending_token_account,
            takers_token_to_receive_account,
            pdas_temp_token_account,
            initializers_main_account,
            initializers_token_to_receive_account,
            escrow_account,
            token_program,
            pda_account,
        })
    }
}

/// A request that the token-custody program reassign an account's authority.
pub struct SetAuthorityRequest {
    /// The token-custody program the request is addressed to.
    pub token_program: Vec<u8>,
    /// The account whose authority changes.
    pub account: Vec<u8>,
    /// The new authority.
    pub new_authority: Vec<u8>,
    /// The current authority, whose signature authorizes the change.
    pub current_authority: Vec<u8>,
}

/// A request that the token-custody program move tokens between accounts.
pub struct TransferRequest {
    /// The token-custody program the request is addressed to.
    pub token_program: Vec<u8>,
    /// The account the tokens leave.
    pub source: Vec<u8>,
    /// The account the tokens arrive in.
    pub destination: Vec<u8>,
    /// How many tokens move.
    pub amount: u64,
    /// The authority for the source account.
    pub authority: Vec<u8>,
    /// Whether the authority is the program's derived identity, signing by
    /// seed re-derivation rather than by a private key.
    pub authority_is_derived: bool,
}

/// A request that the token-custody program close an account and refund its
/// balance.
pub struct CloseAccountRequest {
    /// The token-custody program the request is addressed to.
    pub token_program: Vec<u8>,
    /// The account to close.
    pub account: Vec<u8>,
    /// The account its reclaimed balance is refunded to.
    pub destination: Vec<u8>,
    /// The authority for the closed account.
    pub authority: Vec<u8>,
}

/// Everything a successful Init transition asks the caller to carry out.
pub struct InitOutcome {
    /// The 105 bytes to persist into the escrow account.
    pub escrow_data: Vec<u8>,
    /// The custody account's authority reassignment to the derived authority.
    pub authority_change: SetAuthorityRequest,
}

/// Everything a successful Exchange transition asks the caller to carry out,
/// in order.
pub struct ExchangeOutcome {
    /// Token B: the taker pays the initializer's receiving account.
    pub pay_initializer: TransferRequest,
    /// Token A: the full custody balance moves to the taker.
    pub pay_taker: TransferRequest,
    /// The emptied custody account closes, refunding to the initializer.
    pub close_custody: CloseAccountRequest,
    /// The initializer's new main balance, credited with the escrow
    /// account's reclaimed balance.
    pub initializer_lamports: u64,
    /// The escrow account's new balance: zero.
    pub escrow_lamports: u64,
    /// The escrow account's new data: erased.
    pub escrow_data: Vec<u8>,
    /// The bump seed the host uses to re-derive the authority.
    pub authority_bump: u8,
}

/// What a dispatch asks the caller to carry out: one transition's outcome.
pub enum ProcessOutcome {
    /// A populated record and an authority reassignment.
    Init(InitOutcome),
    /// The three custody requests and the closing writes.
    Exchange(ExchangeOutcome),
}

/// The first failure an Init transition meets, if any: the validation order
/// is signature, receiving account's owner, rent exemption, record shape,
/// record freshness.
pub open spec fn spec_init_error(a: InitAccounts, rent_exempt: bool) -> Option<ProcessError> {
    if !a.initializer.is_signer {
        Some(ProcessError::MissingSignature)
    } else if a.token_to_receive_account.owner@ != spec_spl_token_id() {
        Some(ProcessError::WrongOwner)
    } else if !rent_exempt {
        Some(ProcessError::NotRentExempt)
    } else if a.escrow_account.data@.len() != 105 {
        Some(ProcessError::InvalidAccountData)
    } else if spec_unpack_escrow(a.escrow_account.data@).is_initialized {
        Some(ProcessError::AlreadyInitialized)
    } else {
        None
    }
}

/// The record a successful Init persists: occupied, the three identities as
/// supplied, and the amount the initializer demands.
pub open spec fn spec_init_record(a: InitAccounts, amount: u64) -> EscrowView {
    EscrowView {
        is_initialized: true,
        initializer_pubkey: a.initializer.key@,
        temp_token_account_pubkey: a.temp_token_account.key@,
        initializer_token_to_receive_account_pubkey: a.token_to_receive_account.key@,
        expected_amount: amount,
    }
}

/// Whether `o` is exactly the outcome a successful Init must produce for
/// these accounts, this amount and this authority identity.
pub open spec fn spec_init_outcome_ok(
    a: InitAccounts,
    amount: u64,
    authority: Seq<u8>,
    o: InitOutcome,
) -> bool {
    &&& o.escrow_data@ == spec_pack_escrow(spec_init_record(a, amount))
    &&& o.authority_change.token_program@ == a.token_program.key@
    &&& o.authority_change.account@ == a.temp_token_account.key@
    &&& o.authority_change.new_authority@ == authority
    &&& o.authority_change.current_authority@ == a.initializer.key@
}

/// The first failure an Exchange transition meets, if any: the validation
/// order is signature, custody account shape, amount match, record shape and
/// freshness, the three recorded identities, overflow of the rent credit.
pub open spec fn spec_exchange_error(a: ExchangeAccounts, amount_expected_by_taker: u64) -> Option<
    ProcessError,
> {
    let custody = a.pdas_temp_token_account.data@;
    let esc = a.escrow_account.data@;
    if !a.taker.is_signer {
        Some(ProcessError::MissingSignature)
    } else if !spec_valid_token_account(custody) {
        Some(ProcessError::InvalidAccountData)
    } else if amount_expected_by_taker != spec_token_account_amount(custody) {
        Some(ProcessError::ExpectedAmountMismatch)
    } else if esc.len() != 105 || !spec_unpack_escrow(esc).is_initialized {
        Some(ProcessError::InvalidAccountData)
    } else if spec_unpack_escrow(esc).temp_token_account_pubkey
        != a.pdas_temp_token_account.key@ {
        Some(ProcessError::InvalidAccountData)
    } else if spec_unpack_escrow(esc).initializer_pubkey != a.initializers_main_account.key@ {
        Some(ProcessError::InvalidAccountData)
    } else if spec_unpack_escrow(esc).initializer_token_to_receive_account_pubkey
        != a.initializers_token_to_receive_account.key@ {
        Some(ProcessError::InvalidAccountData)
    } else if a.initializers_main_account.lamports + a.escrow_account.lamports > u64::MAX {
        Some(ProcessError::AmountOverflow)
    } else {
        None
    }
}

/// Whether `o` is exactly the outcome a successful Exchange must produce for
/// these accounts, this authority identity and this bump seed.
pub open spec fn spec_exchange_outcome_ok(
    a: ExchangeAccounts,
    authority: Seq<u8>,
    bump: u8,
    o: ExchangeOutcome,
) -> bool {
    let esc = spec_unpack_escrow(a.escrow_account.data@);
    &&& o.pay_initializer.token_program@ == a.token_program.key@
    &&& o.pay_initializer.source@ == a.takers_sending_token_account.key@
    &&& o.pay_initializer.destination@ == a.initializers_token_to_receive_account.key@
    &&& o.pay_initializer.amount == esc.expected_amount
    &&& o.pay_initializer.authority@ == a.taker.key@
    &&& o.pay_initializer.authority_is_derived == false
    &&& o.pay_taker.token_program@ == a.token_program.key@
    &&& o.pay_taker.source@ == a.pdas_temp_token_account.key@
    &&& o.pay_taker.destination@ == a.takers_token_to_receive_account.key@
    &&& o.pay_taker.amount == spec_token_account_amount(a.pdas_temp_token_account.data@)
    &&& o.pay_taker.authority@ == authority
    &&& o.pay_taker.authority_is_derived == true
    &&& o.close_custody.token_program@ == a.token_program.key@
    &&& o.close_custody.account@ == a.pdas_temp_token_account.key@
    &&& o.close_custody.destination@ == a.initializers_main_account.key@
    &&& o.close_custody.authority@ == authority
    &&& o.initializer_lamports == a.initializers_main_account.lamports
        + a.escrow_account.lamports
    &&& o.escrow_lamports == 0
    &&& o.escrow_data@ == Seq::<u8>::empty()
    &&& o.authority_bump == bump
}

/// The Init transition with the derived authority supplied as an argument:
/// exact for every input.
pub fn init_with_authority(
    a: &InitAccounts,
    amount: u64,
    rent_exempt: bool,
    authority: &Vec<u8>,
) -> (r: Result<InitOutcome, ProcessError>)
    requires
        a.wf(),
    ensures
        spec_init_error(*a, rent_exempt) matches Some(e) ==> r == Err::<
            InitOutcome,
            ProcessError,
        >(e),
        spec_init_error(*a, rent_exempt) is None ==> (r matches Ok(o) && spec_init_outcome_ok(
            *a,
            amount,
            authority@,
            o,
        )),
{
    if !a.initializer.is_signer {
        return Err(ProcessError::MissingSignature);
    }
    let spl_id = spl_token_program_id();
    if !bytes_equal(&a.token_to_receive_account.owner, &spl_id) {
        return Err(ProcessError::WrongOwner);
    }
    if !rent_exempt {
        return Err(ProcessError::NotRentExempt);
    }
    let mut escrow_info = match Escrow::unpack_unchecked(a.escrow_account.data.as_slice()) {
        Ok(e) => e,
        Err(e) => {
            return Err(e);
        },
    };
    if escrow_info.is_initialized {
        return Err(ProcessError::AlreadyInitialized);
    }
    escrow_info.is_initialized = true;
    escrow_info.initializer_pubkey = clone_bytes(&a.initializer.key);
    escrow_info.temp_token_account_pubkey = clone_bytes(&a.temp_token_account.key);
    escrow_info.initializer_token_to_receive_account_pubkey = clone_bytes(
        &a.token_to_receive_account.key,
    );
    escrow_info.expected_amount = amount;
    proof {
        assert(escrow_info@ =~= spec_init_record(*a, amount));
    }
    let escrow_data = escrow_info.pack();
    let authority_change = SetAuthorityRequest {
        token_program: clone_bytes(&a.token_program.key),
        account: clone_bytes(&a.temp_token_account.key),
        new_authority: clone_bytes(authority),
        current_authority: clone_bytes(&a.initializer.key),
    };
    Ok(InitOutcome { escrow_data, authority_change })
}

/// The Exchange transition with the derived authority and bump seed supplied
/// as arguments: exact for every input.
pub fn exchange_with_authority(
    a: &ExchangeAccounts,
    amount_expected_by_taker: u64,
    authority: &Vec<u8>,
    bump: u8,
) -> (r: Result<ExchangeOutcome, ProcessError>)
    ensures
        spec_exchange_error(*a, amount_expected_by_taker) matches Some(e) ==> r == Err::<
            ExchangeOutcome,
            ProcessError,
        >(e),
        spec_exchange_error(*a, amount_expected_by_taker) is None ==> (r matches Ok(o)
            && spec_exchange_outcome_ok(*a, authority@, bump, o)),
{
    if !a.taker.is_signer {
        return Err(ProcessError::MissingSignature);
    }
    let custody_amount = match unpack_token_account_amount(
        a.pdas_temp_token_account.data.as_slice(),
    ) {
        Some(v) => v,
        None => {
            return Err(ProcessError::InvalidAccountData);
        },
    };
    if amount_expected_by_taker != custody_amount {
        return Err(ProcessError::ExpectedAmountMismatch);
    }
    let escrow_info = match Escrow::unpack(a.escrow_account.data.as_slice()) {
        Ok(e) => e,
        Err(e) => {
            return Err(e);
        },
    };
    if !bytes_equal(&escrow_info.temp_token_account_pubkey, &a.pdas_temp_token_account.key) {
        return Err(ProcessError::InvalidAccountData);
    }
    if !bytes_equal(&escrow_info.initializer_pubkey, &a.initializers_main_account.key) {
        return Err(ProcessError::InvalidAccountData);
    }
    if !bytes_equal(
        &escrow_info.initializer_token_to_receive_account_pubkey,
        &a.initializers_token_to_receive_account.key,
    ) {
        return Err(ProcessError::InvalidAccountData);
    }
    let initializer_lamports = match a.initializers_main_account.lamports.checked_add(
        a.escrow_account.lamports,
    ) {
        Some(v) => v,
        None => {
            return Err(ProcessError::AmountOverflow);
        },
    };
    let pay_initializer = TransferRequest {
        token_program: clone_bytes(&a.token_program.key),
        source: clone_bytes(&a.takers_sending_token_account.key),
        destination: clone_bytes(&a.initializers_token_to_receive_account.key),
        amount: escrow_info.expected_amount,
        authority: clone_bytes(&a.taker.key),
        authority_is_derived: false,
    };
    let pay_taker = TransferRequest {
        token_program: clone_bytes(&a.token_program.key),
        source: clone_bytes(&a.pdas_temp_token_account.key),
        destination: clone_bytes(&a.takers_token_to_receive_account.key),
        amount: custody_amount,
        authority: clone_bytes(authority),
        authority_is_derived: true,
    };
    let close_custody = CloseAccountRequest {
        token_program: clone_bytes(&a.token_program.key),
        account: clone_bytes(&a.pdas_temp_token_account.key),
        destination: clone_bytes(&a.initializers_main_account.key),
        authority: clone_bytes(authority),
    };
    Ok(ExchangeOutcome {
        pay_initializer,
        pay_taker,
        close_custody,
        initializer_lamports,
        escrow_lamports: 0,
        escrow_data: Vec::new(),
        authority_bump: bump,
    })
}

/// Whether `r` is a faithful result of the Init transition on this account
/// list: the account count and every validation decide the error exactly;
/// when every validation passes and the program identity has a derived
/// authority, success is owed, carrying exactly the persisted record and the
/// authority reassignment to that derived identity; only when no derived
/// authority exists is the one derivation-failure error returned instead.
pub open spec fn spec_init_result(
    accounts: Seq<HostAccount>,
    amount: u64,
    program_id: Seq<u8>,
    rent_exempt: bool,
    r: Result<InitOutcome, ProcessError>,
) -> bool {
    if accounts.len() < 6 {
        r == Err::<InitOutcome, ProcessError>(ProcessError::NotEnoughAccountKeys)
    } else {
        let a = InitAccounts::spec_from(accounts);
        match spec_init_error(a, rent_exempt) {
            Some(e) => r == Err::<InitOutcome, ProcessError>(e),
            None => match derived_authority_of(program_id) {
                Some(auth) => r matches Ok(o) && spec_init_outcome_ok(a, amount, auth.0, o),
                None => r == Err::<InitOutcome, ProcessError>(ProcessError::AuthorityUnavailable),
            },
        }
    }
}

/// Whether `r` is a faithful result of the Exchange transition on this
/// account list, in the same sense as [`spec_init_result`].
pub open spec fn spec_exchange_result(
    accounts: Seq<HostAccount>,
    amount_expected_by_taker: u64,
    program_id: Seq<u8>,
    r: Result<ExchangeOutcome, ProcessError>,
) -> bool {
    if accounts.len() < 9 {
        r == Err::<ExchangeOutcome, ProcessError>(ProcessError::NotEnoughAccountKeys)
    } else {
        let a = ExchangeAccounts::spec_from(accounts);
        match spec_exchange_error(a, amount_expected_by_taker) {
            Some(e) => r == Err::<ExchangeOutcome, ProcessError>(e),
            None => match derived_authority_of(program_id) {
                Some(auth) => r matches Ok(o) && spec_exchange_outcome_ok(a, auth.0, auth.1, o),
                None => r == Err::<ExchangeOutcome, ProcessError>(
                    ProcessError::AuthorityUnavailable,
                ),
            },
        }
    }
}

/// The stateless processor: one entry, two transitions.
pub struct Processor;

impl Processor {
    /// The Init transition: validates the account list, populates the escrow
    /// record, and requests the custody account's authority be handed to the
    /// derived authority.
    ///
    /// `rent_exempt` is the host's rent-exemption verdict for the escrow
    /// account's balance at its current size, computed at the edge because
    /// the host states it over its own fractional-rate arithmetic.
    pub fn process_init_escrow(
        accounts: Vec<HostAccount>,
        amount: u64,
        program_id: &Vec<u8>,
        rent_exempt: bool,
    ) -> (r: Result<InitOutcome, ProcessError>)
        requires
            program_id@.len() == 32,
            forall|i: int| 0 <= i < accounts@.len() ==> (#[trigger] accounts@[i]).wf(),
        ensures
            spec_init_result(accounts@, amount, program_id@, rent_exempt, r),
    {
        let a = match InitAccounts::from_list(accounts) {
            Ok(a) => a,
            Err(e) => {
                return Err(e);
            },
        };
        match find_escrow_authority(program_id) {
            Some(p) => init_with_authority(&a, amount, rent_exempt, &p.0),
            None => {
                // The validations decide the error even when the host has no
                // derived authority; only an otherwise-owed success reports
                // the missing authority.
                match init_with_authority(&a, amount, rent_exempt, &Vec::new()) {
                    Ok(_) => Err(ProcessError::AuthorityUnavailable),
                    Err(e) => Err(e),
                }
            },
        }
    }

    /// The Exchange transition: validates the account list against the
    /// recorded escrow state and constructs the three custody requests and
    /// the closing writes.
    pub fn process_exchange(
        accounts: Vec<HostAccount>,
        amount_expected_by_taker: u64,
        program_id: &Vec<u8>,
    ) -> (r: Result<ExchangeOutcome, ProcessError>)
        requires
            program_id@.len() == 32,
        ensures
            spec_exchange_result(accounts@, amount_expected_by_taker, program_id@, r),
    {
        let a = match ExchangeAccounts::from_list(accounts) {
            Ok(a) => a,
            Err(e) => {
                return Err(e);
            },
        };
        match find_escrow_authority(program_id) {
            Some(p) => exchange_with_authority(&a, amount_expected_by_taker, &p.0, p.1),
            None => {
                // The validations decide the error even when the host has no
                // derived authority; only an otherwise-owed success reports
                // the missing authority.
                match exchange_with_authority(&a, amount_expected_by_taker, &Vec::new(), 0) {
                    Ok(_) => Err(ProcessError::AuthorityUnavailable),
                    Err(e) => Err(e),
                }
            },
        }
    }

    /// The single entry: decodes the instruction bytes and routes to exactly
    /// one of the two transitions.
    pub fn process(
        program_id: &Vec<u8>,
        accounts: Vec<HostAccount>,
        instruction_data: &[u8],
        rent_exempt: bool,
    ) -> (r: Result<ProcessOutcome, ProcessError>)
        requires
            program_id@.len() == 32,
            forall|i: int| 0 <= i < accounts@.len() ==> (#[trigger] accounts@[i]).wf(),
        ensures
            EscrowInstruction::spec_unpack(instruction_data@) matches Err(e) ==> r == Err::<
                ProcessOutcome,
                ProcessError,
            >(ProcessError::spec_from_escrow(e)),
            EscrowInstruction::spec_unpack(instruction_data@) matches Ok(
                EscrowInstruction::InitEscrow { amount },
            ) ==> {
                &&& r matches Ok(po) ==> (po matches ProcessOutcome::Init(o) && spec_init_result(
                    accounts@,
                    amount,
                    program_id@,
                    rent_exempt,
                    Ok(o),
                ))
                &&& r matches Err(e) ==> spec_init_result(
                    accounts@,
                    amount,
                    program_id@,
                    rent_exempt,
                    Err(e),
                )
            },
            EscrowInstruction::spec_unpack(instruction_data@) matches Ok(
                EscrowInstruction::Exchange { amount },
            ) ==> {
                &&& r matches Ok(po) ==> (po matches ProcessOutcome::Exchange(o)
                    && spec_exchange_result(accounts@, amount, program_id@, Ok(o)))
                &&& r matches Err(e) ==> spec_exchange_result(
                    accounts@,
                    amount,
                    program_id@,
                    Err(e),
                )
            },
    {
        let instruction = match EscrowInstruction::unpack(instruction_data) {
            Ok(i) => i,
            Err(e) => {
                return Err(ProcessError::from_escrow(e));
            },
        };
        match instruction {
            EscrowInstruction::InitEscrow { amount } => {
                match Self::process_init_escrow(accounts, amount, program_id, rent_exempt) {
                    Ok(o) => Ok(ProcessOutcome::Init(o)),
                    Err(e) => Err(e),
                }
            },
            EscrowInstruction::Exchange { amount } => {
                match Self::process_exchange(accounts, amount, program_id) {
                    Ok(o) => Ok(ProcessOutcome::Exchange(o)),
                    Err(e) => Err(e),
                }
            },
        }
    }
}

/// Init is write-once: whatever record a successful Init persisted, a later
/// Init attempt finding that record in the escrow account fails with
/// AlreadyInitialized — and a failed transition produces no outcome, so (the
/// host discarding every write of a failed unit) the persisted state stays
/// exactly what the first Init wrote.
pub proof fn lemma_init_not_repeatable(
    a1: InitAccounts,
    amount: u64,
    rent1: bool,
    authority: Seq<u8>,
    o1: InitOutcome,
    a2: InitAccounts,
    rent2: bool,
)
    requires
        a1.wf(),
        spec_init_error(a1, rent1) is None,
        spec_init_outcome_ok(a1, amount, authority, o1),
        a2.escrow_account.data@ == o1.escrow_data@,
        a2.initializer.is_signer,
        a2.token_to_receive_account.owner@ == spec_spl_token_id(),
        rent2,
    ensures
        spec_init_error(a2, rent2) == Some(ProcessError::AlreadyInitialized),
{
    crate::state::lemma_escrow_round_trip(spec_init_record(a1, amount));
}

/// Exchange rejects a mismatched amount: when the taker signed and the
/// custody account's recorded balance differs from the amount the taker
/// claims, the transition fails with ExpectedAmountMismatch — and a failed
/// transition carries no transfer requests at all.
pub proof fn lemma_exchange_rejects_mismatch(a: ExchangeAccounts, claimed: u64)
    requires
        a.taker.is_signer,
        spec_valid_token_account(a.pdas_temp_token_account.data@),
        claimed != spec_token_account_amount(a.pdas_temp_token_account.data@),
    ensures
        spec_exchange_error(a, claimed) == Some(ProcessError::ExpectedAmountMismatch),
{
}

} // verus!
