use vstd::prelude::*;
use crate::address::{nonzero_if_some, opt_bytes, Address};
use crate::call::{
    create_account_call, create_account_data, create_associated_call, default_state_call,
    default_state_data, enable_memos_call, field_key, field_kind, harvest_call, immutable_owner_call,
    initialize_account_call, initialize_account_data, initialize_group_call, initialize_group_data,
    initialize_metadata_call, initialize_metadata_data, initialize_mint_call, initialize_mint_data,
    interest_bearing_call, interest_bearing_data, is_call, is_token_2022, is_token_program, memo_call,
    memo_data, member_pointer_call, member_pointer_data, metadata_pointer_call, metadata_pointer_data,
    mint_close_authority_call, mint_close_authority_data, non_transferable_call,
    permanent_delegate_call, permanent_delegate_data, readonly, readonly_signer, reallocate_call,
    reallocate_data, source_metas, system_program_id, transfer_checked_call, transfer_checked_data,
    transfer_fee_config_call, transfer_fee_config_data, transfer_hook_call, transfer_hook_data,
    transfer_sol_bytes, transfer_sol_data, transfer_with_fee_call, transfer_with_fee_data,
    update_default_state_call, update_default_state_data, update_field_call, update_field_data,
    withdraw_from_accounts_call, withdraw_from_mint_call, writable, writable_signer,
    group_pointer_call, group_pointer_data, Call, CallAccount, ASSOCIATED_TOKEN_PROGRAM_ID,
    MEMO_PROGRAM_ID,
};
use crate::associated::associated_address;
use crate::layout::{extension_tags, tags_of};
use crate::steps::{state_byte, ExtensionInit, Step};

verus! {

/// Whether the ledger program `program` accepts writing `init`.
pub open spec fn init_accepted(init: ExtensionInit, program: Seq<u8>) -> bool {
    match init {
        ExtensionInit::ImmutableOwner => is_token_program(program),
        ExtensionInit::InterestBearing { rate_authority, .. } => is_token_2022(program)
            && nonzero_if_some(rate_authority),
        ExtensionInit::TransferHook { authority, program_id } => is_token_2022(program)
            && nonzero_if_some(authority) && nonzero_if_some(program_id),
        ExtensionInit::MetadataPointer { authority, metadata_address } => is_token_2022(program)
            && nonzero_if_some(authority) && nonzero_if_some(metadata_address),
        ExtensionInit::GroupPointer { authority, group_address } => is_token_2022(program)
            && nonzero_if_some(authority) && nonzero_if_some(group_address),
        ExtensionInit::GroupMemberPointer { authority, member_address } => is_token_2022(program)
            && nonzero_if_some(authority) && nonzero_if_some(member_address),
        _ => is_token_2022(program),
    }
}

/// Whether `c` is the call that writes `init` into `account`.
pub open spec fn init_call(
    init: ExtensionInit,
    program: Seq<u8>,
    account: Seq<u8>,
    c: Call,
) -> bool {
    let metas = seq![writable(account)];
    match init {
        ExtensionInit::TransferFeeConfig {
            config_authority,
            withdraw_authority,
            basis_points,
            maximum_fee,
        } => {
            is_call(
                c,
                program,
                metas,
                transfer_fee_config_data(
                    opt_bytes(config_authority),
                    opt_bytes(withdraw_authority),
                    basis_points,
                    maximum_fee,
                ),
            )
        },
        ExtensionInit::MintCloseAuthority { close_authority } => {
            is_call(c, program, metas, mint_close_authority_data(opt_bytes(close_authority)))
        },
        ExtensionInit::DefaultAccountState { state } => {
            is_call(c, program, metas, default_state_data(state_byte(state)))
        },
        ExtensionInit::ImmutableOwner => is_call(c, program, metas, seq![22u8]),
        ExtensionInit::NonTransferable => is_call(c, program, metas, seq![32u8]),
        ExtensionInit::InterestBearing { rate_authority, rate } => {
            is_call(c, program, metas, interest_bearing_data(opt_bytes(rate_authority), rate))
        },
        ExtensionInit::PermanentDelegate { delegate } => {
            is_call(c, program, metas, permanent_delegate_data(delegate@))
        },
        ExtensionInit::TransferHook { authority, program_id } => {
            is_call(
                c,
                program,
                metas,
                transfer_hook_data(opt_bytes(authority), opt_bytes(program_id)),
            )
        },
        ExtensionInit::MetadataPointer { authority, metadata_address } => {
            is_call(
                c,
                program,
                metas,
                metadata_pointer_data(opt_bytes(authority), opt_bytes(metadata_address)),
            )
        },
        ExtensionInit::GroupPointer { authority, group_address } => {
            is_call(
                c,
                program,
                metas,
                group_pointer_data(opt_bytes(authority), opt_bytes(group_address)),
            )
        },
        ExtensionInit::GroupMemberPointer { authority, member_address } => {
            is_call(
                c,
                program,
                metas,
                member_pointer_data(opt_bytes(authority), opt_bytes(member_address)),
            )
        },
    }
}

/// Whether the programs accept the call that carries out `step`, with `program` as the
/// ledger program.
pub open spec fn step_accepted(step: Step, program: Seq<u8>) -> bool {
    match step {
        Step::CreateAccount { .. } => true,
        Step::InitializeExtension { init, .. } => init_accepted(init, program),
        Step::InitializeMint { .. } => is_token_program(program),
        Step::InitializeAccount { .. } => is_token_program(program),
        Step::TransferChecked { .. } => is_token_program(program),
        Step::InitializeMetadata { .. } => true,
        Step::InitializeGroup { .. } => true,
        Step::UpdateMetadataField { .. } => true,
        Step::CreateAssociatedAccount { .. } => true,
        Step::Memo { .. } => true,
        Step::LamportTransferVia { .. } => true,
        Step::WithdrawWithheldFromAccounts { sources, .. } => {
            is_token_2022(program) && sources@.len() <= 255
        },
        _ => is_token_2022(program),
    }
}

/// Whether `c` is the call that carries out `step`, with `program` as the ledger
/// program and `lamports` as the balance of an account that the step creates.
pub open spec fn step_call(step: Step, program: Seq<u8>, lamports: u64, c: Call) -> bool {
    match step {
        Step::CreateAccount { payer, account, space, owner, .. } => {
            is_call(
                c,
                system_program_id(),
                seq![writable_signer(payer@), writable_signer(account@)],
                create_account_data(lamports, space, owner@),
            )
        },
        Step::InitializeExtension { account, init } => init_call(init, program, account@, c),
        Step::InitializeMint { mint, decimals, mint_authority, freeze_authority } => {
            is_call(
                c,
                program,
                seq![writable(mint@)],
                initialize_mint_data(decimals, mint_authority@, opt_bytes(freeze_authority)),
            )
        },
        Step::InitializeAccount { account, mint, owner } => {
            is_call(
                c,
                program,
                seq![writable(account@), readonly(mint@)],
                initialize_account_data(owner@),
            )
        },
        Step::EnableRequiredMemos { account, owner } => {
            is_call(c, program, seq![writable(account@), readonly_signer(owner@)], seq![30u8, 0u8])
        },
        Step::InitializeMetadata { mint, authority, name, symbol, uri } => {
            is_call(
                c,
                program,
                seq![
                    writable(mint@),
                    readonly(authority@),
                    readonly(mint@),
                    readonly_signer(authority@),
                ],
                initialize_metadata_data(name@, symbol@, uri@),
            )
        },
        Step::InitializeGroup { group, mint, authority, max_size } => {
            is_call(
                c,
                program,
                seq![writable(group@), readonly(mint@), readonly_signer(authority@)],
                initialize_group_data(max_size),
            )
        },
        Step::Reallocate { account, payer, owner, kinds } => {
            is_call(
                c,
                program,
                seq![
                    writable(account@),
                    writable_signer(payer@),
                    readonly(system_program_id()),
                    readonly_signer(owner@),
                ],
                reallocate_data(tags_of(kinds@)),
            )
        },
        Step::UpdateDefaultAccountState { mint, freeze_authority, state } => {
            is_call(
                c,
                program,
                seq![writable(mint@), readonly_signer(freeze_authority@)],
                update_default_state_data(state_byte(state)),
            )
        },
        Step::UpdateMetadataField { mint, authority, field, value } => {
            is_call(
                c,
                program,
                seq![writable(mint@), readonly_signer(authority@)],
                update_field_data(field_kind(field), field_key(field), value@),
            )
        },
        Step::TransferCheckedWithFee { source, mint, destination, authority, amount, decimals, fee } => {
            is_call(
                c,
                program,
                seq![
                    writable(source@),
                    readonly(mint@),
                    writable(destination@),
                    readonly_signer(authority@),
                ],
                transfer_with_fee_data(amount, decimals, fee),
            )
        },
        Step::HarvestWithheldToMint { mint, sources } => {
            is_call(c, program, seq![writable(mint@)] + source_metas(sources@), seq![26u8, 4u8])
        },
        Step::WithdrawWithheldFromAccounts { mint, destination, authority, sources } => {
            is_call(
                c,
                program,
                seq![
                    readonly(mint@),
                    writable(destination@),
                    readonly_signer(authority@),
                ] + source_metas(sources@),
                seq![26u8, 3u8, sources@.len() as u8],
            )
        },
        Step::CreateAssociatedAccount { payer, wallet, mint, token_program, .. } => {
            is_call(
                c,
                ASSOCIATED_TOKEN_PROGRAM_ID@,
                seq![
                    writable_signer(payer@),
                    writable(associated_address(wallet@, mint@, token_program@)),
                    readonly(wallet@),
                    readonly(mint@),
                    readonly(system_program_id()),
                    readonly(token_program@),
                ],
                seq![1u8],
            )
        },
        Step::TransferChecked { source, mint, destination, authority, amount, decimals } => {
            is_call(
                c,
                program,
                seq![
                    writable(source@),
                    readonly(mint@),
                    writable(destination@),
                    readonly_signer(authority@),
                ],
                transfer_checked_data(amount, decimals),
            )
        },
        Step::Memo { text } => is_call(c, MEMO_PROGRAM_ID@, Seq::empty(), memo_data(text@)),
        Step::LamportTransferVia { program: target, from, to, lamports: amount } => {
            is_call(
                c,
                target@,
                seq![writable_signer(from@), writable(to@), readonly(system_program_id())],
                transfer_sol_data(amount),
            )
        },
        Step::WithdrawWithheldFromMint { mint, destination, authority } => {
            is_call(
                c,
                program,
                seq![writable(mint@), writable(destination@), readonly_signer(authority@)],
                seq![26u8, 2u8],
            )
        },
    }
}

/// The call that writes `init` into `account`.
fn init_call_for(
    init: ExtensionInit,
    program: &Address,
    account: &Address,
) -> (r: Result<Call, u64>)
    ensures
        r.is_ok() <==> init_accepted(init, program@),
        r.is_ok() ==> init_call(init, program@, account@, r.unwrap()),
{
    match init {
        ExtensionInit::TransferFeeConfig { config_authority, withdraw_authority, basis_points, maximum_fee } => {
            transfer_fee_config_call(
                program,
                account,
                config_authority,
                withdraw_authority,
                basis_points,
                maximum_fee,
            )
        },
        ExtensionInit::MintCloseAuthority { close_authority } => {
            mint_close_authority_call(program, account, close_authority)
        },
        ExtensionInit::DefaultAccountState { state } => {
            default_state_call(program, account, state.byte())
        },
        ExtensionInit::ImmutableOwner => immutable_owner_call(program, account),
        ExtensionInit::NonTransferable => non_transferable_call(program, account),
        ExtensionInit::InterestBearing { rate_authority, rate } => {
            interest_bearing_call(program, account, rate_authority, rate)
        },
        ExtensionInit::PermanentDelegate { delegate } => {
            permanent_delegate_call(program, account, &delegate)
        },
        ExtensionInit::TransferHook { authority, program_id } => {
            transfer_hook_call(program, account, authority, program_id)
        },
        ExtensionInit::MetadataPointer { authority, metadata_address } => {
            metadata_pointer_call(program, account, authority, metadata_address)
        },
        ExtensionInit::GroupPointer { authority, group_address } => {
            group_pointer_call(program, account, authority, group_address)
        },
        ExtensionInit::GroupMemberPointer { authority, member_address } => {
            member_pointer_call(program, account, authority, member_address)
        },
    }
}

/// The call that carries out `step`, with `program` as the ledger program and
/// `lamports` as the balance of an account that the step creates (unused otherwise).
/// Fails, with the ledger's code, exactly where the programs refuse the call's
/// arguments.
pub fn call_for(step: Step, program: &Address, lamports: u64) -> (r: Result<Call, u64>)
    ensures
        r.is_ok() <==> step_accepted(step, program@),
        r.is_ok() ==> step_call(step, program@, lamports, r.unwrap()),
{
    match step {
        Step::CreateAccount { payer, account, space, owner, .. } => {
            Ok(create_account_call(&payer, &account, lamports, space, &owner))
        },
        Step::InitializeExtension { account, init } => init_call_for(init, program, &account),
        Step::InitializeMint { mint, decimals, mint_authority, freeze_authority } => {
            initialize_mint_call(program, &mint, &mint_authority, freeze_authority, decimals)
        },
        Step::InitializeAccount { account, mint, owner } => {
            initialize_account_call(program, &account, &mint, &owner)
        },
        Step::EnableRequiredMemos { account, owner } => {
            enable_memos_call(program, &account, &owner)
        },
        Step::InitializeMetadata { mint, authority, name, symbol, uri } => {
            Ok(initialize_metadata_call(
                program,
                &mint,
                &authority,
                &mint,
                &authority,
                name,
                symbol,
                uri,
            ))
        },
        Step::InitializeGroup { group, mint, authority, max_size } => {
            Ok(initialize_group_call(program, &group, &mint, &authority, max_size))
        },
        Step::Reallocate { account, payer, owner, kinds } => {
            let tags = extension_tags(&kinds);
            reallocate_call(program, &account, &payer, &owner, &tags)
        },
        Step::UpdateDefaultAccountState { mint, freeze_authority, state } => {
            update_default_state_call(program, &mint, &freeze_authority, state.byte())
        },
        Step::UpdateMetadataField { mint, authority, field, value } => {
            Ok(update_field_call(program, &mint, &authority, field, value))
        },
        Step::TransferCheckedWithFee { source, mint, destination, authority, amount, decimals, fee } => {
            transfer_with_fee_call(
                program,
                &source,
                &mint,
                &destination,
                &authority,
                amount,
                decimals,
                fee,
            )
        },
        Step::HarvestWithheldToMint { mint, sources } => harvest_call(program, &mint, &sources),
        Step::WithdrawWithheldFromAccounts { mint, destination, authority, sources } => {
            withdraw_from_accounts_call(program, &mint, &destination, &authority, &sources)
        },
        Step::CreateAssociatedAccount { payer, wallet, mint, token_program, .. } => {
            Ok(create_associated_call(&payer, &wallet, &mint, &token_program))
        },
        Step::TransferChecked { source, mint, destination, authority, amount, decimals } => {
            transfer_checked_call(
                program,
                &source,
                &mint,
                &destination,
                &authority,
                amount,
                decimals,
            )
        },
        Step::Memo { text } => Ok(memo_call(&text)),
        Step::LamportTransferVia { program: target, from, to, lamports: amount } => {
            let data = transfer_sol_bytes(amount);
            let mut accounts: Vec<CallAccount> = Vec::new();
            accounts.push(CallAccount { key: from, is_signer: true, is_writable: true });
            accounts.push(CallAccount { key: to, is_signer: false, is_writable: true });
            let system = Address { bytes: [0u8; 32] };
            accounts.push(CallAccount { key: system, is_signer: false, is_writable: false });
            let c = Call { program: target, accounts, data };
            proof {
                assert(system@ =~= system_program_id());
                assert(crate::call::metas_of(c) =~= seq![
                    writable_signer(from@),
                    writable(to@),
                    readonly(system_program_id()),
                ]);
            }
            Ok(c)
        },
        Step::WithdrawWithheldFromMint { mint, destination, authority } => {
            withdraw_from_mint_call(program, &mint, &destination, &authority)
        },
    }
}

} // verus!
