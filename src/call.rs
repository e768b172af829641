use vstd::prelude::*;
use spl_token_2022::extension::{
    default_account_state, group_member_pointer, group_pointer, interest_bearing_mint,
    memo_transfer, metadata_pointer, transfer_fee, transfer_hook, ExtensionType,
};
use spl_token_2022::instruction as token_ix;
use spl_token_2022::solana_program::program_error::ProgramError;
use spl_token_2022::solana_program::pubkey::Pubkey;
use spl_token_2022::solana_program::system_instruction;
use spl_token_2022::state::AccountState;
use spl_token_2022::solana_program::hash::hash;
use spl_token_metadata_interface::state::Field as MetaField;
use anchor_spl::associated_token::spl_associated_token_account::instruction::create_associated_token_account_idempotent;
use anchor_spl::memo::spl_memo::build_memo;
use crate::address::{nonzero_if_some, opt_bytes, Address};
use crate::associated::associated_address;
use crate::layout::known_tag;
use crate::metadata::Field;

verus! {

/// One account of an instruction for another program.
#[derive(Debug, Clone, Copy)]
pub struct CallAccount {
    pub key: Address,
    pub is_signer: bool,
    pub is_writable: bool,
}

/// An instruction for another program: the program, the accounts it reads or writes,
/// and its data.
#[derive(Debug, Clone)]
pub struct Call {
    pub program: Address,
    pub accounts: Vec<CallAccount>,
    pub data: Vec<u8>,
}

/// An account of an instruction as plain values: key, signer, writable.
pub type Meta = (Seq<u8>, bool, bool);

/// The accounts of a call as plain values.
pub open spec fn metas_of(c: Call) -> Seq<Meta> {
    c.accounts@.map_values(|m: CallAccount| (m.key@, m.is_signer, m.is_writable))
}

/// Whether `c` is a call of `program` over `metas` with `data`.
pub open spec fn is_call(c: Call, program: Seq<u8>, metas: Seq<Meta>, data: Seq<u8>) -> bool {
    c.program@ == program && metas_of(c) == metas && c.data@ == data
}

/// An account that the call writes.
pub open spec fn writable(k: Seq<u8>) -> Meta {
    (k, false, true)
}

/// An account that the call only reads.
pub open spec fn readonly(k: Seq<u8>) -> Meta {
    (k, false, false)
}

/// An account that signs and is written.
pub open spec fn writable_signer(k: Seq<u8>) -> Meta {
    (k, true, true)
}

/// An account that signs and is only read.
pub open spec fn readonly_signer(k: Seq<u8>) -> Meta {
    (k, true, false)
}

/// The extensible ledger program.
pub const TOKEN_2022_PROGRAM_ID: [u8; 32] = [
    6, 221, 246, 225, 238, 117, 143, 222, 24, 66, 93, 188, 228, 108, 205, 218, 182, 26, 252, 77,
    131, 185, 13, 39, 254, 189, 249, 40, 216, 161, 139, 252,
];

/// The earlier ledger program, which some instructions also accept.
pub const TOKEN_PROGRAM_ID: [u8; 32] = [
    6, 221, 246, 225, 215, 101, 161, 147, 217, 203, 225, 70, 206, 235, 121, 172, 28, 180, 133,
    237, 95, 91, 55, 145, 58, 140, 245, 133, 126, 255, 0, 169,
];

/// The system program: all zero bytes.
pub open spec fn system_program_id() -> Seq<u8> {
    Seq::new(32, |i: int| 0u8)
}

/// Whether `p` is the extensible ledger program.
pub open spec fn is_token_2022(p: Seq<u8>) -> bool {
    p == TOKEN_2022_PROGRAM_ID@
}

/// Whether `p` is either ledger program.
pub open spec fn is_token_program(p: Seq<u8>) -> bool {
    p == TOKEN_2022_PROGRAM_ID@ || p == TOKEN_PROGRAM_ID@
}

/// The data of the system program's create-account instruction.
pub uninterp spec fn create_account_data(lamports: u64, space: u64, owner: Seq<u8>) -> Seq<u8>;

/// Relies on solana_program's `system_instruction::create_account`: the payer funds and
/// both sign.
#[verifier::external_body]
pub(crate) fn create_account_call(
    payer: &Address,
    account: &Address,
    lamports: u64,
    space: u64,
    owner: &Address,
) -> (r: Call)
    ensures
        is_call(
            r,
            system_program_id(),
            seq![writable_signer(payer@), writable_signer(account@)],
            create_account_data(lamports, space, owner@),
        ),
{
    let ix = system_instruction::create_account(
        &Pubkey::new_from_array(payer.bytes), &Pubkey::new_from_array(account.bytes), lamports,
        space, &Pubkey::new_from_array(owner.bytes),
    );
    let accounts = ix.accounts.iter().map(|m| CallAccount {
        key: Address { bytes: m.pubkey.to_bytes() }, is_signer: m.is_signer, is_writable: m.is_writable,
    }).collect();
    Call { program: Address { bytes: ix.program_id.to_bytes() }, accounts, data: ix.data }
}

/// The data of the ledger's initialize-mint instruction.
pub uninterp spec fn initialize_mint_data(
    decimals: u8,
    mint_authority: Seq<u8>,
    freeze_authority: Option<Seq<u8>>,
) -> Seq<u8>;

/// Relies on spl_token_2022's `instruction::initialize_mint2`: accepts either ledger
/// program; writes the mint.
#[verifier::external_body]
pub(crate) fn initialize_mint_call(
    program: &Address,
    mint: &Address,
    authority: &Address,
    freeze: Option<Address>,
    decimals: u8,
) -> (r: Result<Call, u64>)
    ensures
        r.is_ok() <==> is_token_program(program@),
        r.is_ok() ==> is_call(
            r.unwrap(),
            program@,
            seq![writable(mint@)],
            initialize_mint_data(decimals, authority@, opt_bytes(freeze)),
        ),
{
    let freeze = freeze.map(|a| Pubkey::new_from_array(a.bytes));
    let ix = token_ix::initialize_mint2(
        &Pubkey::new_from_array(program.bytes), &Pubkey::new_from_array(mint.bytes),
        &Pubkey::new_from_array(authority.bytes), freeze.as_ref(), decimals,
    ).map_err(u64::from)?;
    let accounts = ix.accounts.iter().map(|m| CallAccount {
        key: Address { bytes: m.pubkey.to_bytes() }, is_signer: m.is_signer, is_writable: m.is_writable,
    }).collect();
    Ok(Call { program: Address { bytes: ix.program_id.to_bytes() }, accounts, data: ix.data })
}

/// The data of the ledger's initialize-account instruction.
pub uninterp spec fn initialize_account_data(owner: Seq<u8>) -> Seq<u8>;

/// Relies on spl_token_2022's `instruction::initialize_account3`: accepts either ledger
/// program; writes the account and reads the mint.
#[verifier::external_body]
pub(crate) fn initialize_account_call(
    program: &Address,
    account: &Address,
    mint: &Address,
    owner: &Address,
) -> (r: Result<Call, u64>)
    ensures
        r.is_ok() <==> is_token_program(program@),
        r.is_ok() ==> is_call(
            r.unwrap(),
            program@,
            seq![writable(account@), readonly(mint@)],
            initialize_account_data(owner@),
        ),
{
    let ix = token_ix::initialize_account3(
        &Pubkey::new_from_array(program.bytes), &Pubkey::new_from_array(account.bytes),
        &Pubkey::new_from_array(mint.bytes), &Pubkey::new_from_array(owner.bytes),
    ).map_err(u64::from)?;
    let accounts = ix.accounts.iter().map(|m| CallAccount {
        key: Address { bytes: m.pubkey.to_bytes() }, is_signer: m.is_signer, is_writable: m.is_writable,
    }).collect();
    Ok(Call { program: Address { bytes: ix.program_id.to_bytes() }, accounts, data: ix.data })
}

/// The data of the ledger's initialize-mint-close-authority instruction.
pub uninterp spec fn mint_close_authority_data(close_authority: Option<Seq<u8>>) -> Seq<u8>;

/// Relies on spl_token_2022's `instruction::initialize_mint_close_authority`: accepts the
/// extensible ledger program only; writes the mint.
#[verifier::external_body]
pub(crate) fn mint_close_authority_call(
    program: &Address,
    mint: &Address,
    close_authority: Option<Address>,
) -> (r: Result<Call, u64>)
    ensures
        r.is_ok() <==> is_token_2022(program@),
        r.is_ok() ==> is_call(
            r.unwrap(),
            program@,
            seq![writable(mint@)],
            mint_close_authority_data(opt_bytes(close_authority)),
        ),
{
    let close = close_authority.map(|a| Pubkey::new_from_array(a.bytes));
    let ix = token_ix::initialize_mint_close_authority(
        &Pubkey::new_from_array(program.bytes), &Pubkey::new_from_array(mint.bytes),
        close.as_ref(),
    ).map_err(u64::from)?;
    let accounts = ix.accounts.iter().map(|m| CallAccount {
        key: Address { bytes: m.pubkey.to_bytes() }, is_signer: m.is_signer, is_writable: m.is_writable,
    }).collect();
    Ok(Call { program: Address { bytes: ix.program_id.to_bytes() }, accounts, data: ix.data })
}

/// Relies on spl_token_2022's `instruction::initialize_immutable_owner`: accepts either
/// ledger program; writes the account; its data is the one instruction byte 22.
#[verifier::external_body]
pub(crate) fn immutable_owner_call(program: &Address, account: &Address) -> (r: Result<Call, u64>)
    ensures
        r.is_ok() <==> is_token_program(program@),
        r.is_ok() ==> is_call(r.unwrap(), program@, seq![writable(account@)], seq![22u8]),
{
    let ix = token_ix::initialize_immutable_owner(
        &Pubkey::new_from_array(program.bytes), &Pubkey::new_from_array(account.bytes),
    ).map_err(u64::from)?;
    let accounts = ix.accounts.iter().map(|m| CallAccount {
        key: Address { bytes: m.pubkey.to_bytes() }, is_signer: m.is_signer, is_writable: m.is_writable,
    }).collect();
    Ok(Call { program: Address { bytes: ix.program_id.to_bytes() }, accounts, data: ix.data })
}

/// Relies on spl_token_2022's `instruction::initialize_non_transferable_mint`: accepts
/// the extensible ledger program only; writes the mint; its data is the byte 32.
#[verifier::external_body]
pub(crate) fn non_transferable_call(program: &Address, mint: &Address) -> (r: Result<Call, u64>)
    ensures
        r.is_ok() <==> is_token_2022(program@),
        r.is_ok() ==> is_call(r.unwrap(), program@, seq![writable(mint@)], seq![32u8]),
{
    let ix = token_ix::initialize_non_transferable_mint(
        &Pubkey::new_from_array(program.bytes), &Pubkey::new_from_array(mint.bytes),
    ).map_err(u64::from)?;
    let accounts = ix.accounts.iter().map(|m| CallAccount {
        key: Address { bytes: m.pubkey.to_bytes() }, is_signer: m.is_signer, is_writable: m.is_writable,
    }).collect();
    Ok(Call { program: Address { bytes: ix.program_id.to_bytes() }, accounts, data: ix.data })
}

/// The data of the ledger's initialize-permanent-delegate instruction.
pub uninterp spec fn permanent_delegate_data(delegate: Seq<u8>) -> Seq<u8>;

/// Relies on spl_token_2022's `instruction::initialize_permanent_delegate`: accepts the
/// extensible ledger program only; writes the mint.
#[verifier::external_body]
pub(crate) fn permanent_delegate_call(
    program: &Address,
    mint: &Address,
    delegate: &Address,
) -> (r: Result<Call, u64>)
    ensures
        r.is_ok() <==> is_token_2022(program@),
        r.is_ok() ==> is_call(
            r.unwrap(),
            program@,
            seq![writable(mint@)],
            permanent_delegate_data(delegate@),
        ),
{
    let ix = token_ix::initialize_permanent_delegate(
        &Pubkey::new_from_array(program.bytes), &Pubkey::new_from_array(mint.bytes),
        &Pubkey::new_from_array(delegate.bytes),
    ).map_err(u64::from)?;
    let accounts = ix.accounts.iter().map(|m| CallAccount {
        key: Address { bytes: m.pubkey.to_bytes() }, is_signer: m.is_signer, is_writable: m.is_writable,
    }).collect();
    Ok(Call { program: Address { bytes: ix.program_id.to_bytes() }, accounts, data: ix.data })
}

/// The data of the ledger's initialize-transfer-fee-config instruction.
pub uninterp spec fn transfer_fee_config_data(
    config_authority: Option<Seq<u8>>,
    withdraw_authority: Option<Seq<u8>>,
    basis_points: u16,
    maximum_fee: u64,
) -> Seq<u8>;

/// Relies on spl_token_2022's `transfer_fee::instruction::initialize_transfer_fee_config`:
/// accepts the extensible ledger program only; writes the mint.
#[verifier::external_body]
pub(crate) fn transfer_fee_config_call(
    program: &Address,
    mint: &Address,
    config_authority: Option<Address>,
    withdraw_authority: Option<Address>,
    basis_points: u16,
    maximum_fee: u64,
) -> (r: Result<Call, u64>)
    ensures
        r.is_ok() <==> is_token_2022(program@),
        r.is_ok() ==> is_call(
            r.unwrap(),
            program@,
            seq![writable(mint@)],
            transfer_fee_config_data(
                opt_bytes(config_authority),
                opt_bytes(withdraw_authority),
                basis_points,
                maximum_fee,
            ),
        ),
{
    let config = config_authority.map(|a| Pubkey::new_from_array(a.bytes));
    let withdraw = withdraw_authority.map(|a| Pubkey::new_from_array(a.bytes));
    let ix = transfer_fee::instruction::initialize_transfer_fee_config(
        &Pubkey::new_from_array(program.bytes), &Pubkey::new_from_array(mint.bytes),
        config.as_ref(), withdraw.as_ref(), basis_points, maximum_fee,
    ).map_err(u64::from)?;
    let accounts = ix.accounts.iter().map(|m| CallAccount {
        key: Address { bytes: m.pubkey.to_bytes() }, is_signer: m.is_signer, is_writable: m.is_writable,
    }).collect();
    Ok(Call { program: Address { bytes: ix.program_id.to_bytes() }, accounts, data: ix.data })
}

/// The data of the ledger's initialize-default-account-state instruction.
pub uninterp spec fn default_state_data(state: u8) -> Seq<u8>;

/// Relies on spl_token_2022's `AccountState::try_from` (the states numbered 0 to 2) and
/// `default_account_state::instruction::initialize_default_account_state`: accepts the
/// extensible ledger program only; writes the mint.
#[verifier::external_body]
pub(crate) fn default_state_call(
    program: &Address,
    mint: &Address,
    state: u8,
) -> (r: Result<Call, u64>)
    ensures
        r.is_ok() <==> (is_token_2022(program@) && state <= 2),
        r.is_ok() ==> is_call(
            r.unwrap(),
            program@,
            seq![writable(mint@)],
            default_state_data(state),
        ),
{
    let state = AccountState::try_from(state).map_err(|_| u64::from(ProgramError::InvalidArgument))?;
    let ix = default_account_state::instruction::initialize_default_account_state(
        &Pubkey::new_from_array(program.bytes), &Pubkey::new_from_array(mint.bytes), &state,
    ).map_err(u64::from)?;
    let accounts = ix.accounts.iter().map(|m| CallAccount {
        key: Address { bytes: m.pubkey.to_bytes() }, is_signer: m.is_signer, is_writable: m.is_writable,
    }).collect();
    Ok(Call { program: Address { bytes: ix.program_id.to_bytes() }, accounts, data: ix.data })
}

/// The data of the ledger's transfer-hook initialization.
pub uninterp spec fn transfer_hook_data(
    authority: Option<Seq<u8>>,
    program_id: Option<Seq<u8>>,
) -> Seq<u8>;

/// Relies on spl_token_2022's `transfer_hook::instruction::initialize`: accepts the extensible
/// ledger program only, and no all-zero address; writes the mint.
#[verifier::external_body]
pub(crate) fn transfer_hook_call(
    program: &Address,
    mint: &Address,
    authority: Option<Address>,
    program_id: Option<Address>,
) -> (r: Result<Call, u64>)
    ensures
        r.is_ok() <==> (is_token_2022(program@) && nonzero_if_some(authority) && nonzero_if_some(program_id)),
        r.is_ok() ==> is_call(
            r.unwrap(),
            program@,
            seq![writable(mint@)],
            transfer_hook_data(opt_bytes(authority), opt_bytes(program_id)),
        ),
{
    let first = authority.map(|a| Pubkey::new_from_array(a.bytes));
    let second = program_id.map(|a| Pubkey::new_from_array(a.bytes));
    let ix = transfer_hook::instruction::initialize(
        &Pubkey::new_from_array(program.bytes), &Pubkey::new_from_array(mint.bytes), first, second,
    ).map_err(u64::from)?;
    let accounts = ix.accounts.iter().map(|m| CallAccount {
        key: Address { bytes: m.pubkey.to_bytes() }, is_signer: m.is_signer, is_writable: m.is_writable,
    }).collect();
    Ok(Call { program: Address { bytes: ix.program_id.to_bytes() }, accounts, data: ix.data })
}

/// The data of the ledger's metadata-pointer initialization.
pub uninterp spec fn metadata_pointer_data(
    authority: Option<Seq<u8>>,
    metadata_address: Option<Seq<u8>>,
) -> Seq<u8>;

/// Relies on spl_token_2022's `metadata_pointer::instruction::initialize`: accepts the extensible
/// ledger program only, and no all-zero address; writes the mint.
#[verifier::external_body]
pub(crate) fn metadata_pointer_call(
    program: &Address,
    mint: &Address,
    authority: Option<Address>,
    metadata_address: Option<Address>,
) -> (r: Result<Call, u64>)
    ensures
        r.is_ok() <==> (is_token_2022(program@) && nonzero_if_some(authority) && nonzero_if_some(metadata_address)),
        r.is_ok() ==> is_call(
            r.unwrap(),
            program@,
            seq![writable(mint@)],
            metadata_pointer_data(opt_bytes(authority), opt_bytes(metadata_address)),
        ),
{
    let first = authority.map(|a| Pubkey::new_from_array(a.bytes));
    let second = metadata_address.map(|a| Pubkey::new_from_array(a.bytes));
    let ix = metadata_pointer::instruction::initialize(
        &Pubkey::new_from_array(program.bytes), &Pubkey::new_from_array(mint.bytes), first, second,
    ).map_err(u64::from)?;
    let accounts = ix.accounts.iter().map(|m| CallAccount {
        key: Address { bytes: m.pubkey.to_bytes() }, is_signer: m.is_signer, is_writable: m.is_writable,
    }).collect();
    Ok(Call { program: Address { bytes: ix.program_id.to_bytes() }, accounts, data: ix.data })
}

/// The data of the ledger's group-pointer initialization.
pub uninterp spec fn group_pointer_data(
    authority: Option<Seq<u8>>,
    group_address: Option<Seq<u8>>,
) -> Seq<u8>;

/// Relies on spl_token_2022's `group_pointer::instruction::initialize`: accepts the extensible
/// ledger program only, and no all-zero address; writes the mint.
#[verifier::external_body]
pub(crate) fn group_pointer_call(
    program: &Address,
    mint: &Address,
    authority: Option<Address>,
    group_address: Option<Address>,
) -> (r: Result<Call, u64>)
    ensures
        r.is_ok() <==> (is_token_2022(program@) && nonzero_if_some(authority) && nonzero_if_some(group_address)),
        r.is_ok() ==> is_call(
            r.unwrap(),
            program@,
            seq![writable(mint@)],
            group_pointer_data(opt_bytes(authority), opt_bytes(group_address)),
        ),
{
    let first = authority.map(|a| Pubkey::new_from_array(a.bytes));
    let second = group_address.map(|a| Pubkey::new_from_array(a.bytes));
    let ix = group_pointer::instruction::initialize(
        &Pubkey::new_from_array(program.bytes), &Pubkey::new_from_array(mint.bytes), first, second,
    ).map_err(u64::from)?;
    let accounts = ix.accounts.iter().map(|m| CallAccount {
        key: Address { bytes: m.pubkey.to_bytes() }, is_signer: m.is_signer, is_writable: m.is_writable,
    }).collect();
    Ok(Call { program: Address { bytes: ix.program_id.to_bytes() }, accounts, data: ix.data })
}

/// The data of the ledger's group-member-pointer initialization.
pub uninterp spec fn member_pointer_data(
    authority: Option<Seq<u8>>,
    member_address: Option<Seq<u8>>,
) -> Seq<u8>;

/// Relies on spl_token_2022's `group_member_pointer::instruction::initialize`: accepts the extensible
/// ledger program only, and no all-zero address; writes the mint.
#[verifier::external_body]
pub(crate) fn member_pointer_call(
    program: &Address,
    mint: &Address,
    authority: Option<Address>,
    member_address: Option<Address>,
) -> (r: Result<Call, u64>)
    ensures
        r.is_ok() <==> (is_token_2022(program@) && nonzero_if_some(authority) && nonzero_if_some(member_address)),
        r.is_ok() ==> is_call(
            r.unwrap(),
            program@,
            seq![writable(mint@)],
            member_pointer_data(opt_bytes(authority), opt_bytes(member_address)),
        ),
{
    let first = authority.map(|a| Pubkey::new_from_array(a.bytes));
    let second = member_address.map(|a| Pubkey::new_from_array(a.bytes));
    let ix = group_member_pointer::instruction::initialize(
        &Pubkey::new_from_array(program.bytes), &Pubkey::new_from_array(mint.bytes), first, second,
    ).map_err(u64::from)?;
    let accounts = ix.accounts.iter().map(|m| CallAccount {
        key: Address { bytes: m.pubkey.to_bytes() }, is_signer: m.is_signer, is_writable: m.is_writable,
    }).collect();
    Ok(Call { program: Address { bytes: ix.program_id.to_bytes() }, accounts, data: ix.data })
}

/// The data of the ledger's interest-bearing initialization.
pub uninterp spec fn interest_bearing_data(rate_authority: Option<Seq<u8>>, rate: i16) -> Seq<u8>;

/// Relies on spl_token_2022's `interest_bearing_mint::instruction::initialize`: accepts
/// the extensible ledger program only, and no all-zero authority; writes the mint.
#[verifier::external_body]
pub(crate) fn interest_bearing_call(
    program: &Address,
    mint: &Address,
    rate_authority: Option<Address>,
    rate: i16,
) -> (r: Result<Call, u64>)
    ensures
        r.is_ok() <==> (is_token_2022(program@) && nonzero_if_some(rate_authority)),
        r.is_ok() ==> is_call(
            r.unwrap(),
            program@,
            seq![writable(mint@)],
            interest_bearing_data(opt_bytes(rate_authority), rate),
        ),
{
    let authority = rate_authority.map(|a| Pubkey::new_from_array(a.bytes));
    let ix = interest_bearing_mint::instruction::initialize(
        &Pubkey::new_from_array(program.bytes), &Pubkey::new_from_array(mint.bytes), authority,
        rate,
    ).map_err(u64::from)?;
    let accounts = ix.accounts.iter().map(|m| CallAccount {
        key: Address { bytes: m.pubkey.to_bytes() }, is_signer: m.is_signer, is_writable: m.is_writable,
    }).collect();
    Ok(Call { program: Address { bytes: ix.program_id.to_bytes() }, accounts, data: ix.data })
}

/// The data of the ledger's reallocate instruction.
pub uninterp spec fn reallocate_data(tags: Seq<u16>) -> Seq<u8>;

/// Relies on spl_token_2022's `instruction::reallocate`: accepts the extensible ledger
/// program only, and type numbers that it knows; the payer signs and funds, the owner
/// signs.
#[verifier::external_body]
pub(crate) fn reallocate_call(
    program: &Address,
    account: &Address,
    payer: &Address,
    owner: &Address,
    tags: &Vec<u16>,
) -> (r: Result<Call, u64>)
    requires
        forall|i: int| 0 <= i < tags.len() ==> known_tag(#[trigger] tags[i]),
    ensures
        r.is_ok() <==> is_token_2022(program@),
        r.is_ok() ==> is_call(
            r.unwrap(),
            program@,
            seq![
                writable(account@),
                writable_signer(payer@),
                readonly(system_program_id()),
                readonly_signer(owner@),
            ],
            reallocate_data(tags@),
        ),
{
    let mut types = Vec::new();
    for t in tags.iter() {
        types.push(ExtensionType::try_from(&t.to_le_bytes()[..]).map_err(u64::from)?);
    }
    let ix = token_ix::reallocate(
        &Pubkey::new_from_array(program.bytes), &Pubkey::new_from_array(account.bytes),
        &Pubkey::new_from_array(payer.bytes), &Pubkey::new_from_array(owner.bytes), &[], &types,
    ).map_err(u64::from)?;
    let accounts = ix.accounts.iter().map(|m| CallAccount {
        key: Address { bytes: m.pubkey.to_bytes() }, is_signer: m.is_signer, is_writable: m.is_writable,
    }).collect();
    Ok(Call { program: Address { bytes: ix.program_id.to_bytes() }, accounts, data: ix.data })
}

/// Relies on spl_token_2022's `memo_transfer::instruction::enable_required_transfer_memos`:
/// accepts the extensible ledger program only; the owner signs.
#[verifier::external_body]
pub(crate) fn enable_memos_call(
    program: &Address,
    account: &Address,
    owner: &Address,
) -> (r: Result<Call, u64>)
    ensures
        r.is_ok() <==> is_token_2022(program@),
        r.is_ok() ==> is_call(
            r.unwrap(),
            program@,
            seq![writable(account@), readonly_signer(owner@)],
            seq![30u8, 0u8],
        ),
{
    let ix = memo_transfer::instruction::enable_required_transfer_memos(
        &Pubkey::new_from_array(program.bytes), &Pubkey::new_from_array(account.bytes),
        &Pubkey::new_from_array(owner.bytes), &[],
    ).map_err(u64::from)?;
    let accounts = ix.accounts.iter().map(|m| CallAccount {
        key: Address { bytes: m.pubkey.to_bytes() }, is_signer: m.is_signer, is_writable: m.is_writable,
    }).collect();
    Ok(Call { program: Address { bytes: ix.program_id.to_bytes() }, accounts, data: ix.data })
}

/// The data of the ledger's checked transfer.
pub uninterp spec fn transfer_checked_data(amount: u64, decimals: u8) -> Seq<u8>;

/// Relies on spl_token_2022's `instruction::transfer_checked`: accepts either ledger
/// program; the authority signs.
#[verifier::external_body]
pub(crate) fn transfer_checked_call(
    program: &Address,
    source: &Address,
    mint: &Address,
    destination: &Address,
    authority: &Address,
    amount: u64,
    decimals: u8,
) -> (r: Result<Call, u64>)
    ensures
        r.is_ok() <==> is_token_program(program@),
        r.is_ok() ==> is_call(
            r.unwrap(),
            program@,
            seq![
                writable(source@),
                readonly(mint@),
                writable(destination@),
                readonly_signer(authority@),
            ],
            transfer_checked_data(amount, decimals),
        ),
{
    let ix = token_ix::transfer_checked(
        &Pubkey::new_from_array(program.bytes), &Pubkey::new_from_array(source.bytes),
        &Pubkey::new_from_array(mint.bytes), &Pubkey::new_from_array(destination.bytes),
        &Pubkey::new_from_array(authority.bytes), &[], amount, decimals,
    ).map_err(u64::from)?;
    let accounts = ix.accounts.iter().map(|m| CallAccount {
        key: Address { bytes: m.pubkey.to_bytes() }, is_signer: m.is_signer, is_writable: m.is_writable,
    }).collect();
    Ok(Call { program: Address { bytes: ix.program_id.to_bytes() }, accounts, data: ix.data })
}

/// The data of the ledger's transfer with an expected fee.
pub uninterp spec fn transfer_with_fee_data(amount: u64, decimals: u8, fee: u64) -> Seq<u8>;

/// Relies on spl_token_2022's `transfer_fee::instruction::transfer_checked_with_fee`:
/// accepts the extensible ledger program only; the authority signs.
#[verifier::external_body]
pub(crate) fn transfer_with_fee_call(
    program: &Address,
    source: &Address,
    mint: &Address,
    destination: &Address,
    authority: &Address,
    amount: u64,
    decimals: u8,
    fee: u64,
) -> (r: Result<Call, u64>)
    ensures
        r.is_ok() <==> is_token_2022(program@),
        r.is_ok() ==> is_call(
            r.unwrap(),
            program@,
            seq![
                writable(source@),
                readonly(mint@),
                writable(destination@),
                readonly_signer(authority@),
            ],
            transfer_with_fee_data(amount, decimals, fee),
        ),
{
    let ix = transfer_fee::instruction::transfer_checked_with_fee(
        &Pubkey::new_from_array(program.bytes), &Pubkey::new_from_array(source.bytes),
        &Pubkey::new_from_array(mint.bytes), &Pubkey::new_from_array(destination.bytes),
        &Pubkey::new_from_array(authority.bytes), &[], amount, decimals, fee,
    ).map_err(u64::from)?;
    let accounts = ix.accounts.iter().map(|m| CallAccount {
        key: Address { bytes: m.pubkey.to_bytes() }, is_signer: m.is_signer, is_writable: m.is_writable,
    }).collect();
    Ok(Call { program: Address { bytes: ix.program_id.to_bytes() }, accounts, data: ix.data })
}

/// The writable source accounts of a harvest or withdrawal.
pub open spec fn source_metas(sources: Seq<Address>) -> Seq<Meta> {
    sources.map_values(|a: Address| writable(a@))
}

/// Relies on spl_token_2022's `transfer_fee::instruction::harvest_withheld_tokens_to_mint`:
/// accepts the extensible ledger program only; writes the mint and each source.
#[verifier::external_body]
pub(crate) fn harvest_call(
    program: &Address,
    mint: &Address,
    sources: &Vec<Address>,
) -> (r: Result<Call, u64>)
    ensures
        r.is_ok() <==> is_token_2022(program@),
        r.is_ok() ==> is_call(
            r.unwrap(),
            program@,
            seq![writable(mint@)] + source_metas(sources@),
            seq![26u8, 4u8],
        ),
{
    let keys: Vec<Pubkey> = sources.iter().map(|a| Pubkey::new_from_array(a.bytes)).collect();
    let refs: Vec<&Pubkey> = keys.iter().collect();
    let ix = transfer_fee::instruction::harvest_withheld_tokens_to_mint(
        &Pubkey::new_from_array(program.bytes), &Pubkey::new_from_array(mint.bytes), &refs,
    ).map_err(u64::from)?;
    let accounts = ix.accounts.iter().map(|m| CallAccount {
        key: Address { bytes: m.pubkey.to_bytes() }, is_signer: m.is_signer, is_writable: m.is_writable,
    }).collect();
    Ok(Call { program: Address { bytes: ix.program_id.to_bytes() }, accounts, data: ix.data })
}

/// Relies on spl_token_2022's
/// `transfer_fee::instruction::withdraw_withheld_tokens_from_accounts`: accepts the
/// extensible ledger program only, and at most 255 sources; the authority signs.
#[verifier::external_body]
pub(crate) fn withdraw_from_accounts_call(
    program: &Address,
    mint: &Address,
    destination: &Address,
    authority: &Address,
    sources: &Vec<Address>,
) -> (r: Result<Call, u64>)
    ensures
        r.is_ok() <==> (is_token_2022(program@) && sources@.len() <= 255),
        r.is_ok() ==> is_call(
            r.unwrap(),
            program@,
            seq![
                readonly(mint@),
                writable(destination@),
                readonly_signer(authority@),
            ] + source_metas(sources@),
            seq![26u8, 3u8, sources@.len() as u8],
        ),
{
    let keys: Vec<Pubkey> = sources.iter().map(|a| Pubkey::new_from_array(a.bytes)).collect();
    let refs: Vec<&Pubkey> = keys.iter().collect();
    let ix = transfer_fee::instruction::withdraw_withheld_tokens_from_accounts(
        &Pubkey::new_from_array(program.bytes), &Pubkey::new_from_array(mint.bytes),
        &Pubkey::new_from_array(destination.bytes), &Pubkey::new_from_array(authority.bytes), &[],
        &refs,
    ).map_err(u64::from)?;
    let accounts = ix.accounts.iter().map(|m| CallAccount {
        key: Address { bytes: m.pubkey.to_bytes() }, is_signer: m.is_signer, is_writable: m.is_writable,
    }).collect();
    Ok(Call { program: Address { bytes: ix.program_id.to_bytes() }, accounts, data: ix.data })
}

/// Relies on spl_token_2022's `transfer_fee::instruction::withdraw_withheld_tokens_from_mint`:
/// accepts the extensible ledger program only; the authority signs.
#[verifier::external_body]
pub(crate) fn withdraw_from_mint_call(
    program: &Address,
    mint: &Address,
    destination: &Address,
    authority: &Address,
) -> (r: Result<Call, u64>)
    ensures
        r.is_ok() <==> is_token_2022(program@),
        r.is_ok() ==> is_call(
            r.unwrap(),
            program@,
            seq![writable(mint@), writable(destination@), readonly_signer(authority@)],
            seq![26u8, 2u8],
        ),
{
    let ix = transfer_fee::instruction::withdraw_withheld_tokens_from_mint(
        &Pubkey::new_from_array(program.bytes), &Pubkey::new_from_array(mint.bytes),
        &Pubkey::new_from_array(destination.bytes), &Pubkey::new_from_array(authority.bytes), &[],
    ).map_err(u64::from)?;
    let accounts = ix.accounts.iter().map(|m| CallAccount {
        key: Address { bytes: m.pubkey.to_bytes() }, is_signer: m.is_signer, is_writable: m.is_writable,
    }).collect();
    Ok(Call { program: Address { bytes: ix.program_id.to_bytes() }, accounts, data: ix.data })
}

/// The data of the ledger's default-account-state update.
pub uninterp spec fn update_default_state_data(state: u8) -> Seq<u8>;

/// Relies on spl_token_2022's `AccountState::try_from` (the states numbered 0 to 2) and
/// `default_account_state::instruction::update_default_account_state`: accepts the
/// extensible ledger program only; the freeze authority signs.
#[verifier::external_body]
pub(crate) fn update_default_state_call(
    program: &Address,
    mint: &Address,
    freeze_authority: &Address,
    state: u8,
) -> (r: Result<Call, u64>)
    ensures
        r.is_ok() <==> (is_token_2022(program@) && state <= 2),
        r.is_ok() ==> is_call(
            r.unwrap(),
            program@,
            seq![writable(mint@), readonly_signer(freeze_authority@)],
            update_default_state_data(state),
        ),
{
    let state = AccountState::try_from(state).map_err(|_| u64::from(ProgramError::InvalidArgument))?;
    let ix = default_account_state::instruction::update_default_account_state(
        &Pubkey::new_from_array(program.bytes), &Pubkey::new_from_array(mint.bytes),
        &Pubkey::new_from_array(freeze_authority.bytes), &[], &state,
    ).map_err(u64::from)?;
    let accounts = ix.accounts.iter().map(|m| CallAccount {
        key: Address { bytes: m.pubkey.to_bytes() }, is_signer: m.is_signer, is_writable: m.is_writable,
    }).collect();
    Ok(Call { program: Address { bytes: ix.program_id.to_bytes() }, accounts, data: ix.data })
}

/// The data of the metadata initialization.
pub uninterp spec fn initialize_metadata_data(
    name: Seq<char>,
    symbol: Seq<char>,
    uri: Seq<char>,
) -> Seq<u8>;

/// Relies on spl_token_metadata_interface's `instruction::initialize`: the metadata
/// account is written, the mint authority signs.
#[verifier::external_body]
pub(crate) fn initialize_metadata_call(
    program: &Address,
    metadata: &Address,
    update_authority: &Address,
    mint: &Address,
    mint_authority: &Address,
    name: String,
    symbol: String,
    uri: String,
) -> (r: Call)
    ensures
        is_call(
            r,
            program@,
            seq![
                writable(metadata@),
                readonly(update_authority@),
                readonly(mint@),
                readonly_signer(mint_authority@),
            ],
            initialize_metadata_data(name@, symbol@, uri@),
        ),
{
    let ix = spl_token_metadata_interface::instruction::initialize(
        &Pubkey::new_from_array(program.bytes), &Pubkey::new_from_array(metadata.bytes),
        &Pubkey::new_from_array(update_authority.bytes), &Pubkey::new_from_array(mint.bytes),
        &Pubkey::new_from_array(mint_authority.bytes), name, symbol, uri,
    );
    let accounts = ix.accounts.iter().map(|m| CallAccount {
        key: Address { bytes: m.pubkey.to_bytes() }, is_signer: m.is_signer, is_writable: m.is_writable,
    }).collect();
    Call { program: Address { bytes: ix.program_id.to_bytes() }, accounts, data: ix.data }
}

/// The number of a metadata field's kind: name, symbol, uri, user key.
pub open spec fn field_kind(f: Field) -> u8 {
    match f {
        Field::Name => 0,
        Field::Symbol => 1,
        Field::Uri => 2,
        Field::Key(_) => 3,
    }
}

/// The key of a user field; empty for the others.
pub open spec fn field_key(f: Field) -> Seq<char> {
    match f {
        Field::Key(k) => k@,
        _ => Seq::empty(),
    }
}

/// The data of a metadata field update.
pub uninterp spec fn update_field_data(kind: u8, key: Seq<char>, value: Seq<char>) -> Seq<u8>;

/// Relies on spl_token_metadata_interface's `instruction::update_field`: the metadata
/// account is written, the update authority signs.
#[verifier::external_body]
pub(crate) fn update_field_call(
    program: &Address,
    metadata: &Address,
    update_authority: &Address,
    field: Field,
    value: String,
) -> (r: Call)
    ensures
        is_call(
            r,
            program@,
            seq![writable(metadata@), readonly_signer(update_authority@)],
            update_field_data(field_kind(field), field_key(field), value@),
        ),
{
    let field = match field {
        Field::Name => MetaField::Name,
        Field::Symbol => MetaField::Symbol,
        Field::Uri => MetaField::Uri,
        Field::Key(k) => MetaField::Key(k),
    };
    let ix = spl_token_metadata_interface::instruction::update_field(
        &Pubkey::new_from_array(program.bytes), &Pubkey::new_from_array(metadata.bytes),
        &Pubkey::new_from_array(update_authority.bytes), field, value,
    );
    let accounts = ix.accounts.iter().map(|m| CallAccount {
        key: Address { bytes: m.pubkey.to_bytes() }, is_signer: m.is_signer, is_writable: m.is_writable,
    }).collect();
    Call { program: Address { bytes: ix.program_id.to_bytes() }, accounts, data: ix.data }
}

/// The data of a group initialization without update authority.
pub uninterp spec fn initialize_group_data(max_size: u32) -> Seq<u8>;

/// Relies on spl_token_group_interface's `instruction::initialize_group`, with no update
/// authority: the group account is written, the mint authority signs.
#[verifier::external_body]
pub(crate) fn initialize_group_call(
    program: &Address,
    group: &Address,
    mint: &Address,
    mint_authority: &Address,
    max_size: u32,
) -> (r: Call)
    ensures
        is_call(
            r,
            program@,
            seq![writable(group@), readonly(mint@), readonly_signer(mint_authority@)],
            initialize_group_data(max_size),
        ),
{
    let ix = spl_token_group_interface::instruction::initialize_group(
        &Pubkey::new_from_array(program.bytes), &Pubkey::new_from_array(group.bytes),
        &Pubkey::new_from_array(mint.bytes), &Pubkey::new_from_array(mint_authority.bytes), None,
        max_size,
    );
    let accounts = ix.accounts.iter().map(|m| CallAccount {
        key: Address { bytes: m.pubkey.to_bytes() }, is_signer: m.is_signer, is_writable: m.is_writable,
    }).collect();
    Call { program: Address { bytes: ix.program_id.to_bytes() }, accounts, data: ix.data }
}

/// The associated token account program.
pub const ASSOCIATED_TOKEN_PROGRAM_ID: [u8; 32] = [
    140, 151, 37, 143, 78, 36, 137, 241, 187, 61, 16, 41, 20, 142, 13, 131, 11, 90, 19, 153, 218,
    255, 16, 132, 4, 142, 123, 216, 219, 233, 248, 89,
];

/// The memo program.
pub const MEMO_PROGRAM_ID: [u8; 32] = [
    5, 74, 83, 90, 153, 41, 33, 6, 77, 36, 232, 113, 96, 218, 56, 124, 124, 53, 181, 221, 188, 146,
    187, 129, 228, 31, 168, 64, 65, 5, 68, 141,
];

/// Relies on spl_associated_token_account's
/// `instruction::create_associated_token_account_idempotent`: the payer signs and funds
/// the derived account.
#[verifier::external_body]
pub(crate) fn create_associated_call(
    payer: &Address,
    wallet: &Address,
    mint: &Address,
    token_program: &Address,
) -> (r: Call)
    ensures
        is_call(
            r,
            ASSOCIATED_TOKEN_PROGRAM_ID@,
            seq![
                writable_signer(payer@),
                writable(associated_address(wallet@, mint@, token_program@)),
                readonly(wallet@),
                readonly(mint@),
                readonly(system_program_id()),
                readonly(token_program@),
            ],
            seq![1u8],
        ),
{
    let ix = create_associated_token_account_idempotent(
        &Pubkey::new_from_array(payer.bytes), &Pubkey::new_from_array(wallet.bytes),
        &Pubkey::new_from_array(mint.bytes), &Pubkey::new_from_array(token_program.bytes),
    );
    let accounts = ix.accounts.iter().map(|m| CallAccount {
        key: Address { bytes: m.pubkey.to_bytes() }, is_signer: m.is_signer, is_writable: m.is_writable,
    }).collect();
    Call { program: Address { bytes: ix.program_id.to_bytes() }, accounts, data: ix.data }
}

/// The bytes of a memo's text.
pub uninterp spec fn memo_data(text: Seq<char>) -> Seq<u8>;

/// Relies on spl_memo's `build_memo`, with no signers: the memo is the text's bytes.
#[verifier::external_body]
pub(crate) fn memo_call(text: &String) -> (r: Call)
    ensures
        is_call(r, MEMO_PROGRAM_ID@, Seq::empty(), memo_data(text@)),
{
    let ix = build_memo(text.as_bytes(), &[]);
    let accounts = ix.accounts.iter().map(|m| CallAccount {
        key: Address { bytes: m.pubkey.to_bytes() }, is_signer: m.is_signer, is_writable: m.is_writable,
    }).collect();
    Call { program: Address { bytes: ix.program_id.to_bytes() }, accounts, data: ix.data }
}

/// The data of the guarded-transfer program's `transfer_sol` instruction.
pub uninterp spec fn transfer_sol_data(lamports: u64) -> Seq<u8>;

/// Relies on solana_program's `hash::hash` (SHA-256): the data of an instruction of a
/// program built with anchor is the first 8 bytes of the hash of its name, then its
/// arguments.
#[verifier::external_body]
pub(crate) fn transfer_sol_bytes(lamports: u64) -> (r: Vec<u8>)
    ensures
        r@ == transfer_sol_data(lamports),
{
    let mut data = hash(b"global:transfer_sol").to_bytes()[..8].to_vec();
    data.extend_from_slice(&lamports.to_le_bytes());
    data
}

} // verus!
