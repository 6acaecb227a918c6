use vstd::prelude::*;
use vstd::pervasive::VecAdditionalExecFns;
use crate::account::{Account, AccountCursor};
use crate::error::MintError;
use crate::mint;
use crate::mint::Mint;
use crate::rent;

verus! {

/// The record written into the mint account on success: the decoded previous
/// record with the mint authority set to `authority` and the freeze
/// authority cleared. Supply, decimals and the initialization flag keep
/// whatever the storage held.
pub open spec fn updated_record(mint_data: Seq<u8>, authority: [u8; 32]) -> Mint {
    Mint {
        mint_authority: Option::Some(authority),
        supply: mint::u64_at(mint_data, 36) as u64,
        decimals: mint_data[44],
        is_initialized: mint_data[45] == 1u8,
        freeze_authority: Option::None,
    }
}

/// The storage of the mint account after a successful initialization.
pub open spec fn spec_new_mint_data(mint_data: Seq<u8>, authority: [u8; 32]) -> Seq<u8> {
    mint::spec_pack_mint(updated_record(mint_data, authority), mint_data)
}

/// The outcome of the initialize-mint handler on an account list: each guard
/// in the order the handler applies them, then success.
pub open spec fn spec_init_result(accs: Seq<Account>) -> Result<(), MintError> {
    if accs.len() < 3 {
        Result::Err(MintError::NotEnoughAccountKeys)
    } else if !mint::valid_mint_bytes(accs[0].data@) {
        Result::Err(MintError::InvalidAccountData)
    } else if mint::mint_initialized(accs[0].data@) {
        Result::Err(MintError::AccountAlreadyInitialized)
    } else if accs[2].key@ != rent::rent_id_bytes() {
        Result::Err(MintError::InvalidArgument)
    } else if accs[2].data@.len() < 17 {
        Result::Err(MintError::InvalidArgument)
    } else if !rent::rent_cost_fits(accs[2].data@, accs[0].data@.len()) {
        Result::Err(MintError::AccountNotRentExempt)
    } else if !rent::rent_exempt_of(accs[2].data@, accs[0].lamports, accs[0].data@.len()) {
        Result::Err(MintError::AccountNotRentExempt)
    } else {
        Result::Ok(())
    }
}

/// How a successful initialization changes the account list: only the mint
/// account's storage is rewritten; its address and balance, and every other
/// account, stay as they were.
pub open spec fn accounts_updated(pre: Seq<Account>, post: Seq<Account>) -> bool
    recommends
        pre.len() >= 3,
{
    &&& post.len() == pre.len()
    &&& (forall|i: int| 1 <= i < pre.len() ==> post[i] == pre[i])
    &&& post[0].key == pre[0].key
    &&& post[0].lamports == pre[0].lamports
    &&& post[0].data@ == spec_new_mint_data(pre[0].data@, pre[1].key)
}

/// The instructions this program supports, one variant per opcode, so that
/// dispatch is over a tagged type rather than a raw byte switch.
#[derive(Clone, Copy, PartialEq, Eq, Structural, Debug)]
pub enum Instruction {
    /// Opcode 0: initialize the mint.
    InitializeMint,
}

/// What the instruction payload decodes to: its first byte is the opcode,
/// and a byte naming no instruction is rejected.
pub open spec fn spec_parse_instruction(instr: Seq<u8>) -> Result<Instruction, MintError>
    recommends
        instr.len() >= 1,
{
    if instr[0] == 0u8 {
        Result::Ok(Instruction::InitializeMint)
    } else {
        Result::Err(MintError::InvalidInstructionData)
    }
}

/// Decodes the instruction payload. The payload must be non-empty: the
/// opcode byte is read unconditionally.
pub fn parse_instruction(instruction_data: &Vec<u8>) -> (r: Result<Instruction, MintError>)
    requires
        instruction_data@.len() >= 1,
    ensures
        r == spec_parse_instruction(instruction_data@),
{
    if instruction_data[0] == 0 {
        Ok(Instruction::InitializeMint)
    } else {
        Err(MintError::InvalidInstructionData)
    }
}

/// The outcome of the whole instruction: the opcode byte routes to the
/// initialize-mint handler, and any other opcode is rejected.
pub open spec fn spec_process_result(accs: Seq<Account>, instr: Seq<u8>) -> Result<(), MintError>
    recommends
        instr.len() >= 1,
{
    match spec_parse_instruction(instr) {
        Result::Ok(Instruction::InitializeMint) => spec_init_result(accs),
        Result::Err(e) => Result::Err(e),
    }
}

/// Initializes the mint: takes the mint account, the mint authority account
/// and the rent sysvar account from the list in order, checks that the mint
/// record is not yet initialized and that the mint account is funded past
/// the rent-exemption threshold, and only then rewrites the mint account's
/// storage with the authority filled in. Every failure leaves all accounts
/// unchanged.
pub fn initialize_mint(program_id: &[u8; 32], accounts: &mut Vec<Account>) -> (r: Result<
    (),
    MintError,
>)
    ensures
        r == spec_init_result(old(accounts)@),
        r is Err ==> final(accounts)@ == old(accounts)@,
        r is Ok ==> accounts_updated(old(accounts)@, final(accounts)@),
{
    let mut cursor = AccountCursor::new();
    let n = accounts.len();
    let mint_idx = match cursor.next_index(n) {
        Ok(i) => i,
        Err(e) => { return Err(e) },
    };
    let authority_idx = match cursor.next_index(n) {
        Ok(i) => i,
        Err(e) => { return Err(e) },
    };
    let rent_idx = match cursor.next_index(n) {
        Ok(i) => i,
        Err(e) => { return Err(e) },
    };
    let mut record = match mint::unpack(&accounts[mint_idx].data) {
        Ok(m) => m,
        Err(e) => { return Err(e) },
    };
    if record.is_initialized {
        return Err(MintError::AccountAlreadyInitialized);
    }
    if !rent::is_rent_sysvar_key(&accounts[rent_idx].key) {
        return Err(MintError::InvalidArgument);
    }
    if accounts[rent_idx].data.len() < rent::RENT_STATE_LEN {
        return Err(MintError::InvalidArgument);
    }
    let balance = accounts[mint_idx].lamports;
    let data_len = accounts[mint_idx].data.len();
    // A schedule whose raw byte-year cost for this account overflows 64 bits
    // demands more than any representable balance, so the mint is treated as
    // not rent-exempt. (The runtime's own rent code would wrap silently in
    // release builds and panic in checked builds on such a schedule; neither
    // is behavior worth reproducing.)
    if !rent::rent_cost_in_range(&accounts[rent_idx].data, data_len) {
        return Err(MintError::AccountNotRentExempt);
    }
    let exempt = match rent::rent_exempt_decision(&accounts[rent_idx].data, balance, data_len) {
        Some(b) => b,
        None => {
            proof {
                assert(false);
            }
            return Err(MintError::InvalidArgument);
        },
    };
    if !exempt {
        return Err(MintError::AccountNotRentExempt);
    }
    record.mint_authority = Some(accounts[authority_idx].key);
    record.freeze_authority = None;
    let buf = mint::copy_bytes(&accounts[mint_idx].data);
    let new_data = match mint::pack(&record, buf) {
        Ok(d) => d,
        Err(e) => {
            proof {
                assert(false);
            }
            return Err(e);
        },
    };
    let updated = Account {
        key: accounts[mint_idx].key,
        lamports: accounts[mint_idx].lamports,
        data: new_data,
    };
    accounts.set(mint_idx, updated);
    Ok(())
}

/// Routes an incoming instruction by its opcode byte. Opcode 0 initializes
/// the mint; any other opcode is rejected without touching any account. The
/// payload must be non-empty: the opcode byte is read unconditionally.
pub fn process_instruction(
    program_id: &[u8; 32],
    accounts: &mut Vec<Account>,
    instruction_data: &Vec<u8>,
) -> (r: Result<(), MintError>)
    requires
        instruction_data@.len() >= 1,
    ensures
        r == spec_process_result(old(accounts)@, instruction_data@),
        r is Err ==> final(accounts)@ == old(accounts)@,
        r is Ok ==> accounts_updated(old(accounts)@, final(accounts)@),
{
    let instruction = match parse_instruction(instruction_data) {
        Ok(ix) => ix,
        Err(e) => { return Err(e) },
    };
    match instruction {
        Instruction::InitializeMint => initialize_mint(program_id, accounts),
    }
}

/// A fresh mint initializes: on a list whose mint account holds valid,
/// uninitialized storage, whose third account is the rent sysvar with a
/// readable schedule, and whose mint account is funded past the exemption
/// threshold, the handler succeeds, and the new storage decodes to a record
/// whose mint authority is the supplied authority address and whose freeze
/// authority is absent.
pub proof fn lemma_fresh_mint_initializes(accs: Seq<Account>)
    requires
        accs.len() >= 3,
        mint::valid_mint_bytes(accs[0].data@),
        !mint::mint_initialized(accs[0].data@),
        accs[2].key@ == rent::rent_id_bytes(),
        accs[2].data@.len() >= 17,
        rent::rent_cost_fits(accs[2].data@, accs[0].data@.len()),
        rent::rent_exempt_of(accs[2].data@, accs[0].lamports, accs[0].data@.len()),
    ensures
        spec_init_result(accs) == Result::<(), MintError>::Ok(()),
        mint::valid_mint_bytes(spec_new_mint_data(accs[0].data@, accs[1].key)),
        forall|m: Mint|
            mint::mint_matches_bytes(m, spec_new_mint_data(accs[0].data@, accs[1].key)) ==> {
                &&& m.mint_authority matches Some(k) && k@ == accs[1].key@
                &&& m.freeze_authority is None
            },
{
    let d0 = accs[0].data@;
    let d1 = spec_new_mint_data(d0, accs[1].key);
    assert(d1[0] == 1u8 && d1[1] == 0u8 && d1[2] == 0u8 && d1[3] == 0u8);
    assert(d1[45] == 0u8);
    assert(d1[46] == 0u8 && d1[47] == 0u8 && d1[48] == 0u8 && d1[49] == 0u8);
    assert(mint::valid_mint_bytes(d1));
    assert forall|m: Mint| mint::mint_matches_bytes(m, d1) implies {
        &&& m.mint_authority matches Some(k) && k@ == accs[1].key@
        &&& m.freeze_authority is None
    } by {
        match m.mint_authority {
            Option::Some(k) => {
                assert forall|j: int| 0 <= j < 32 implies k@[j] == accs[1].key@[j] by {
                    assert(k@[j] == d1[4 + j]);
                    assert(d1[4 + j] == mint::pack_byte(updated_record(d0, accs[1].key), d0, 4 + j));
                }
                assert(k@ =~= accs[1].key@);
            },
            Option::None => {
                assert(d1[0] == 0u8);
            },
        }
        match m.freeze_authority {
            Option::Some(k) => {
                assert(d1[46] == 1u8);
            },
            Option::None => {},
        }
    }
}

/// The idempotence guard: a mint whose storage is already initialized is
/// rejected with the already-initialized error. Every rejection leaves the
/// accounts unchanged, so a second call on the same accounts is rejected the
/// same way and the record stays exactly as it stood after the first call.
pub proof fn lemma_already_initialized_rejected(accs: Seq<Account>)
    requires
        accs.len() >= 3,
        mint::valid_mint_bytes(accs[0].data@),
        mint::mint_initialized(accs[0].data@),
    ensures
        spec_init_result(accs) == Result::<(), MintError>::Err(
            MintError::AccountAlreadyInitialized,
        ),
{
}

/// The rent guard: a mint account whose balance does not meet the exemption
/// threshold for its data length is rejected with the not-rent-exempt error,
/// and the handler's contract then leaves its storage untouched.
pub proof fn lemma_not_exempt_rejected(accs: Seq<Account>)
    requires
        accs.len() >= 3,
        mint::valid_mint_bytes(accs[0].data@),
        !mint::mint_initialized(accs[0].data@),
        accs[2].key@ == rent::rent_id_bytes(),
        accs[2].data@.len() >= 17,
        !rent::rent_exempt_of(accs[2].data@, accs[0].lamports, accs[0].data@.len()),
    ensures
        spec_init_result(accs) == Result::<(), MintError>::Err(MintError::AccountNotRentExempt),
{
}

} // verus!
