use vstd::prelude::*;
use spl_token_2022::extension::group_pointer::GroupPointer;
use spl_token_2022::extension::{BaseStateWithExtensions, StateWithExtensions};
use spl_token_2022::solana_program::pubkey::Pubkey;
use spl_token_2022::state::Mint;
use crate::address::{opt_bytes, Address};
use crate::authority::{fresh_error, check_unallocated, AccountSnapshot};
use crate::error::{ErrorCode, Failure};
use crate::layout::{BaseKind, ExtensionKind};
use crate::instructions::{create_step, mint_plan, provision_mint_with, MintCreation};
use crate::provision::Provisioning;
use crate::steps::{ExtensionInit, Step};

verus! {

/// The group address that the ledger's mint format records in `data`'s group pointer
/// (`None` inside where the pointer names no group), or `None` where `data` is not an
/// initialized mint with a group pointer.
pub uninterp spec fn group_address_in(data: Seq<u8>) -> Option<Option<Seq<u8>>>;

/// Relies on spl_token_2022's `StateWithExtensions::<Mint>::unpack` and
/// `get_extension::<GroupPointer>`: decodes a mint and reads the group address in its
/// group pointer; a result of the bytes alone.
#[verifier::external_body]
fn read_group_address(data: &[u8]) -> (r: Result<Option<Address>, u64>)
    ensures
        r.is_ok() <==> group_address_in(data@) is Some,
        r.is_ok() ==> group_address_in(data@) == Some(opt_bytes(r.unwrap())),
{
    let state = StateWithExtensions::<Mint>::unpack(data).map_err(u64::from)?;
    let pointer = state.get_extension::<GroupPointer>().map_err(u64::from)?;
    let group = Option::<Pubkey>::from(pointer.group_address);
    Ok(group.map(|k| Address { bytes: k.to_bytes() }))
}

/// Checks that a group pointer names `group` itself.
pub fn check_group_reference(recorded: Option<Address>, group: &Address) -> (r: Result<(), ErrorCode>)
    ensures
        r is Ok <==> opt_bytes(recorded) == Some(group@),
        r matches Err(e) ==> e == ErrorCode::InvalidGroupAddress,
{
    match recorded {
        None => Err(ErrorCode::InvalidGroupAddress),
        Some(a) => {
            if a.same_as(group) {
                Ok(())
            } else {
                Err(ErrorCode::InvalidGroupAddress)
            }
        },
    }
}

/// A mint that is offered as a group, with its bytes.
#[derive(Debug, Clone)]
pub struct GroupAccount {
    pub key: Address,
    pub owner: Address,
    pub data: Vec<u8>,
}

/// Whether `group` can have members point at it: it belongs to the ledger program,
/// decodes as a mint with a group pointer, and that pointer names the group itself.
pub open spec fn group_accepts_members(group: GroupAccount, ledger_program: Address) -> bool {
    group.owner@ == ledger_program@ && group_address_in(group.data@) == Some(Some(group.key@))
}

/// The failures that a check of `group` gives, by cause: a wrong owner, bytes that do
/// not decode (with the ledger's code), a pointer that names another account.
pub open spec fn group_failure(group: GroupAccount, ledger_program: Address, f: Failure) -> bool {
    if group.owner@ != ledger_program@ {
        f == Failure::Program(ErrorCode::InvalidAccountOwner)
    } else if group_address_in(group.data@) is None {
        f is Ledger
    } else {
        f == Failure::Program(ErrorCode::InvalidGroupAddress)
    }
}

/// Checks that `group` can have members point at it.
pub fn check_member_group(group: &GroupAccount, ledger_program: &Address) -> (r: Result<(), Failure>)
    ensures
        r is Ok <==> group_accepts_members(*group, *ledger_program),
        r matches Err(f) ==> group_failure(*group, *ledger_program, f),
{
    if !group.owner.same_as(ledger_program) {
        return Err(Failure::Program(ErrorCode::InvalidAccountOwner));
    }
    let recorded = match read_group_address(group.data.as_slice()) {
        Err(code) => {
            return Err(Failure::Ledger(code));
        },
        Ok(a) => a,
    };
    match check_group_reference(recorded, &group.key) {
        Err(e) => Err(Failure::Program(e)),
        Ok(()) => Ok(()),
    }
}

/// Plans a member mint whose member pointer names itself, after checking that `group`
/// points at itself. The member must be unallocated; it is checked before the group.
pub fn initialize_member_pointer(
    acc: &MintCreation,
    group: &GroupAccount,
    mint_len: u64,
    decimals: u8,
) -> (r: Result<Vec<Step>, Failure>)
    ensures
        fresh_error(acc.mint, acc.system_program) matches Some(e) ==> r == Err::<Vec<Step>, Failure>(
            Failure::Program(e),
        ),
        fresh_error(acc.mint, acc.system_program) is None ==> (r is Ok <==> group_accepts_members(
            *group,
            acc.ledger_program,
        )),
        fresh_error(acc.mint, acc.system_program) is None ==> (r matches Err(f) ==> group_failure(
            *group,
            acc.ledger_program,
            f,
        )),
        r matches Ok(steps) ==> steps@ == mint_plan(
            *acc,
            mint_len,
            mint_len,
            ExtensionInit::GroupMemberPointer {
                authority: Some(acc.authority),
                member_address: Some(acc.mint.key),
            },
            decimals,
            None,
        ),
{
    match check_unallocated(&acc.mint, &acc.system_program) {
        Err(e) => {
            return Err(Failure::Program(e));
        },
        Ok(()) => {},
    }
    match check_member_group(group, &acc.ledger_program) {
        Err(f) => {
            return Err(f);
        },
        Ok(()) => {},
    }
    let init = ExtensionInit::GroupMemberPointer {
        authority: Some(acc.authority),
        member_address: Some(acc.mint.key),
    };
    match provision_mint_with(acc, mint_len, mint_len, init, decimals, None) {
        Err(e) => Err(Failure::Program(e)),
        Ok(p) => Ok(p.steps),
    }
}

/// The steps that create a group mint and its group account: the mint's group pointer
/// names the group account, which receives the group record once the mint is
/// initialized.
pub open spec fn group_plan(
    acc: MintCreation,
    group: AccountSnapshot,
    mint_len: u64,
    account_len: u64,
    decimals: u8,
    max_size: u32,
) -> Seq<Step> {
    seq![
        create_step(acc, acc.mint.key, mint_len, (2 * mint_len) as u64),
        create_step(acc, group.key, account_len, account_len),
        Step::InitializeExtension {
            account: acc.mint.key,
            init: ExtensionInit::GroupPointer {
                authority: Some(acc.authority),
                group_address: Some(group.key),
            },
        },
        Step::InitializeMint {
            mint: acc.mint.key,
            decimals,
            mint_authority: acc.authority,
            freeze_authority: None,
        },
        Step::InitializeGroup {
            group: group.key,
            mint: acc.mint.key,
            authority: acc.authority,
            max_size,
        },
    ]
}

/// Plans a group mint of up to `max_size` members, with its group record in `group`.
/// The mint is funded for twice `mint_len`. Both accounts must be unallocated; the
/// mint is checked first.
pub fn initialize_group_pointer(
    acc: &MintCreation,
    group: &AccountSnapshot,
    mint_len: u64,
    account_len: u64,
    decimals: u8,
    max_size: u32,
) -> (r: Result<Vec<Step>, ErrorCode>)
    requires
        mint_len <= u64::MAX / 2,
    ensures
        fresh_error(acc.mint, acc.system_program) matches Some(e) ==> r == Err::<Vec<Step>, ErrorCode>(e),
        fresh_error(acc.mint, acc.system_program) is None ==> (fresh_error(*group, acc.system_program) matches Some(e)
            ==> r == Err::<Vec<Step>, ErrorCode>(e)),
        r is Ok <==> fresh_error(acc.mint, acc.system_program) is None && fresh_error(
            *group,
            acc.system_program,
        ) is None,
        r matches Ok(steps) ==> steps@ == group_plan(*acc, *group, mint_len, account_len, decimals, max_size),
{
    let mut m = match Provisioning::open(
        &acc.mint,
        &acc.system_program,
        &acc.payer,
        &acc.ledger_program,
        BaseKind::Mint,
        vec![ExtensionKind::GroupPointer],
        mint_len,
        2 * mint_len,
    ) {
        Err(e) => {
            return Err(e);
        },
        Ok(p) => p,
    };
    match check_unallocated(group, &acc.system_program) {
        Err(e) => {
            return Err(e);
        },
        Ok(()) => {},
    }
    let r0 = m.create_companion(acc.payer, group.key, account_len, account_len, acc.ledger_program);
    assert(r0 is Ok);
    let init = ExtensionInit::GroupPointer { authority: Some(acc.authority), group_address: Some(group.key) };
    assert(m.requested@[0] == ExtensionKind::GroupPointer);
    let r1 = m.initialize_extension(init);
    assert(r1 is Ok);
    assert(m.initialized@[0] == ExtensionKind::GroupPointer);
    let r2 = m.finalize_mint(decimals, acc.authority, None);
    assert(r2 is Ok);
    let r3 = m.follow_with(
        Step::InitializeGroup { group: group.key, mint: acc.mint.key, authority: acc.authority, max_size },
    );
    assert(r3 is Ok);
    assert(m.steps@ =~= group_plan(*acc, *group, mint_len, account_len, decimals, max_size));
    Ok(m.steps)
}

} // verus!
