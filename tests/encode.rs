use anchor_spl::associated_token::spl_associated_token_account::instruction::create_associated_token_account_idempotent;
use anchor_spl::memo::spl_memo::build_memo;
use spl_token_2022::extension::{
    default_account_state, group_member_pointer, group_pointer, interest_bearing_mint, memo_transfer,
    metadata_pointer, transfer_fee, transfer_hook, ExtensionType,
};
use spl_token_2022::instruction as token_ix;
use spl_token_2022::solana_program::hash::hash;
use spl_token_2022::solana_program::instruction::Instruction;
use spl_token_2022::solana_program::pubkey::Pubkey;
use spl_token_2022::solana_program::system_instruction;
use spl_token_2022::state::AccountState;
use spl_token_metadata_interface::state::Field as MetaField;
use std::str::FromStr;
use token_extension::address::Address;
use token_extension::call::{Call, TOKEN_2022_PROGRAM_ID};
use token_extension::encode::call_for;
use token_extension::layout::ExtensionKind;
use token_extension::metadata::Field;
use token_extension::steps::{AccountStateKind, ExtensionInit, Step};

fn a(n: u8) -> Address {
    Address::new([n; 32])
}

fn k(n: u8) -> Pubkey {
    Pubkey::new_from_array([n; 32])
}

fn ledger() -> Address {
    Address::new(spl_token_2022::id().to_bytes())
}

fn same(call: Call, ix: Instruction) {
    assert_eq!(call.program.bytes, ix.program_id.to_bytes());
    assert_eq!(call.accounts.len(), ix.accounts.len());
    for (c, m) in call.accounts.iter().zip(ix.accounts.iter()) {
        assert_eq!(c.key.bytes, m.pubkey.to_bytes());
        assert_eq!(c.is_signer, m.is_signer);
        assert_eq!(c.is_writable, m.is_writable);
    }
    assert_eq!(call.data, ix.data);
}

fn call(step: Step) -> Call {
    call_for(step, &ledger(), 7).unwrap()
}

#[test]
fn ledger_program_id_matches() {
    assert_eq!(TOKEN_2022_PROGRAM_ID, spl_token_2022::id().to_bytes());
}

#[test]
fn create_account_call_matches() {
    let c = call(Step::CreateAccount { payer: a(1), account: a(2), space: 234, funded_length: 468, owner: ledger() });
    same(c, system_instruction::create_account(&k(1), &k(2), 7, 234, &spl_token_2022::id()));
}

#[test]
fn base_state_calls_match() {
    let p = spl_token_2022::id();
    let c = call(Step::InitializeMint { mint: a(1), decimals: 6, mint_authority: a(3), freeze_authority: Some(a(4)) });
    same(c, token_ix::initialize_mint2(&p, &k(1), &k(3), Some(&k(4)), 6).unwrap());
    let c = call(Step::InitializeAccount { account: a(5), mint: a(1), owner: a(6) });
    same(c, token_ix::initialize_account3(&p, &k(5), &k(1), &k(6)).unwrap());
}

#[test]
fn extension_calls_match() {
    let p = spl_token_2022::id();
    let init = |init: ExtensionInit| call(Step::InitializeExtension { account: a(1), init });
    same(
        init(ExtensionInit::TransferFeeConfig { config_authority: Some(a(3)), withdraw_authority: None, basis_points: 200, maximum_fee: 1000 }),
        transfer_fee::instruction::initialize_transfer_fee_config(&p, &k(1), Some(&k(3)), None, 200, 1000).unwrap(),
    );
    same(
        init(ExtensionInit::MintCloseAuthority { close_authority: Some(a(3)) }),
        token_ix::initialize_mint_close_authority(&p, &k(1), Some(&k(3))).unwrap(),
    );
    same(
        init(ExtensionInit::DefaultAccountState { state: AccountStateKind::Frozen }),
        default_account_state::instruction::initialize_default_account_state(&p, &k(1), &AccountState::Frozen).unwrap(),
    );
    same(init(ExtensionInit::ImmutableOwner), token_ix::initialize_immutable_owner(&p, &k(1)).unwrap());
    same(init(ExtensionInit::NonTransferable), token_ix::initialize_non_transferable_mint(&p, &k(1)).unwrap());
    same(
        init(ExtensionInit::InterestBearing { rate_authority: Some(a(3)), rate: -5 }),
        interest_bearing_mint::instruction::initialize(&p, &k(1), Some(k(3)), -5).unwrap(),
    );
    same(
        init(ExtensionInit::PermanentDelegate { delegate: a(3) }),
        token_ix::initialize_permanent_delegate(&p, &k(1), &k(3)).unwrap(),
    );
    same(
        init(ExtensionInit::TransferHook { authority: Some(a(3)), program_id: None }),
        transfer_hook::instruction::initialize(&p, &k(1), Some(k(3)), None).unwrap(),
    );
    same(
        init(ExtensionInit::MetadataPointer { authority: Some(a(3)), metadata_address: Some(a(1)) }),
        metadata_pointer::instruction::initialize(&p, &k(1), Some(k(3)), Some(k(1))).unwrap(),
    );
    same(
        init(ExtensionInit::GroupPointer { authority: Some(a(3)), group_address: Some(a(8)) }),
        group_pointer::instruction::initialize(&p, &k(1), Some(k(3)), Some(k(8))).unwrap(),
    );
    same(
        init(ExtensionInit::GroupMemberPointer { authority: None, member_address: Some(a(1)) }),
        group_member_pointer::instruction::initialize(&p, &k(1), None, Some(k(1))).unwrap(),
    );
}

#[test]
fn zero_pointer_address_is_refused() {
    let r = call_for(
        Step::InitializeExtension {
            account: a(1),
            init: ExtensionInit::MetadataPointer { authority: Some(a(0)), metadata_address: None },
        },
        &ledger(),
        0,
    );
    assert!(r.is_err());
}

#[test]
fn other_program_is_refused() {
    let r = call_for(Step::InitializeExtension { account: a(1), init: ExtensionInit::NonTransferable }, &a(9), 0);
    assert!(r.is_err());
    let r = call_for(Step::CreateAccount { payer: a(1), account: a(2), space: 1, funded_length: 1, owner: a(9) }, &a(9), 0);
    assert!(r.is_ok());
}

#[test]
fn account_update_calls_match() {
    let p = spl_token_2022::id();
    same(
        call(Step::EnableRequiredMemos { account: a(5), owner: a(6) }),
        memo_transfer::instruction::enable_required_transfer_memos(&p, &k(5), &k(6), &[]).unwrap(),
    );
    same(
        call(Step::Reallocate { account: a(5), payer: a(2), owner: a(6), kinds: vec![ExtensionKind::MemoTransfer] }),
        token_ix::reallocate(&p, &k(5), &k(2), &k(6), &[], &[ExtensionType::MemoTransfer]).unwrap(),
    );
    same(
        call(Step::UpdateDefaultAccountState { mint: a(1), freeze_authority: a(3), state: AccountStateKind::Initialized }),
        default_account_state::instruction::update_default_account_state(&p, &k(1), &k(3), &[], &AccountState::Initialized)
            .unwrap(),
    );
}

#[test]
fn metadata_and_group_calls_match() {
    let p = spl_token_2022::id();
    same(
        call(Step::InitializeMetadata {
            mint: a(1),
            authority: a(3),
            name: "N".to_string(),
            symbol: "S".to_string(),
            uri: "u".to_string(),
        }),
        spl_token_metadata_interface::instruction::initialize(&p, &k(1), &k(3), &k(1), &k(3), "N".to_string(), "S".to_string(), "u".to_string()),
    );
    same(
        call(Step::UpdateMetadataField { mint: a(1), authority: a(3), field: Field::Key("k".to_string()), value: "v".to_string() }),
        spl_token_metadata_interface::instruction::update_field(&p, &k(1), &k(3), MetaField::Key("k".to_string()), "v".to_string()),
    );
    same(
        call(Step::InitializeGroup { group: a(8), mint: a(1), authority: a(3), max_size: 10 }),
        spl_token_group_interface::instruction::initialize_group(&p, &k(8), &k(1), &k(3), None, 10),
    );
}

#[test]
fn fee_calls_match() {
    let p = spl_token_2022::id();
    same(
        call(Step::TransferCheckedWithFee { source: a(2), mint: a(1), destination: a(3), authority: a(4), amount: 50_000, decimals: 2, fee: 1000 }),
        transfer_fee::instruction::transfer_checked_with_fee(&p, &k(2), &k(1), &k(3), &k(4), &[], 50_000, 2, 1000).unwrap(),
    );
    same(
        call(Step::HarvestWithheldToMint { mint: a(1), sources: vec![a(5), a(6)] }),
        transfer_fee::instruction::harvest_withheld_tokens_to_mint(&p, &k(1), &[&k(5), &k(6)]).unwrap(),
    );
    same(
        call(Step::WithdrawWithheldFromAccounts { mint: a(1), destination: a(3), authority: a(4), sources: vec![a(5)] }),
        transfer_fee::instruction::withdraw_withheld_tokens_from_accounts(&p, &k(1), &k(3), &k(4), &[], &[&k(5)]).unwrap(),
    );
    same(
        call(Step::WithdrawWithheldFromMint { mint: a(1), destination: a(3), authority: a(4) }),
        transfer_fee::instruction::withdraw_withheld_tokens_from_mint(&p, &k(1), &k(3), &k(4), &[]).unwrap(),
    );
}

#[test]
fn transfer_memo_and_associated_calls_match() {
    let p = spl_token_2022::id();
    same(
        call(Step::TransferChecked { source: a(2), mint: a(1), destination: a(3), authority: a(4), amount: 10, decimals: 2 }),
        token_ix::transfer_checked(&p, &k(2), &k(1), &k(3), &k(4), &[], 10, 2).unwrap(),
    );
    same(call(Step::Memo { text: "hello".to_string() }), build_memo(b"hello", &[]));
    same(
        call(Step::CreateAssociatedAccount { payer: a(2), associated: a(9), wallet: a(4), mint: a(1), token_program: ledger() }),
        create_associated_token_account_idempotent(&k(2), &k(4), &k(1), &p),
    );
}

#[test]
fn lamport_transfer_call_carries_name_hash_and_amount() {
    let c = call(Step::LamportTransferVia { program: a(9), from: a(4), to: a(8), lamports: 1_100_000_000 });
    let mut data = hash(b"global:transfer_sol").to_bytes()[..8].to_vec();
    data.extend_from_slice(&1_100_000_000u64.to_le_bytes());
    assert_eq!(c.data, data);
    assert_eq!(c.program.bytes, [9; 32]);
    assert_eq!(c.accounts.len(), 3);
    assert_eq!(c.accounts[2].key.bytes, [0; 32]);
    assert!(c.accounts[0].is_signer && c.accounts[0].is_writable);
}

fn metas(c: &Call) -> Vec<([u8; 32], bool, bool)> {
    c.accounts.iter().map(|m| (m.key.bytes, m.is_signer, m.is_writable)).collect()
}

#[test]
fn stated_data_and_accounts_hold() {
    let c = call(Step::InitializeExtension { account: a(1), init: ExtensionInit::ImmutableOwner });
    assert_eq!(c.data, vec![22]);
    assert_eq!(metas(&c), vec![([1; 32], false, true)]);
    let c = call(Step::InitializeExtension { account: a(1), init: ExtensionInit::NonTransferable });
    assert_eq!(c.data, vec![32]);
    let c = call(Step::EnableRequiredMemos { account: a(5), owner: a(6) });
    assert_eq!(c.data, vec![30, 0]);
    assert_eq!(metas(&c), vec![([5; 32], false, true), ([6; 32], true, false)]);
    let c = call(Step::HarvestWithheldToMint { mint: a(1), sources: vec![a(5), a(6)] });
    assert_eq!(c.data, vec![26, 4]);
    assert_eq!(metas(&c), vec![([1; 32], false, true), ([5; 32], false, true), ([6; 32], false, true)]);
    let c = call(Step::WithdrawWithheldFromAccounts { mint: a(1), destination: a(3), authority: a(4), sources: vec![a(5), a(6)] });
    assert_eq!(c.data, vec![26, 3, 2]);
    assert_eq!(
        metas(&c),
        vec![([1; 32], false, false), ([3; 32], false, true), ([4; 32], true, false), ([5; 32], false, true), ([6; 32], false, true)]
    );
    let c = call(Step::WithdrawWithheldFromMint { mint: a(1), destination: a(3), authority: a(4) });
    assert_eq!(c.data, vec![26, 2]);
    assert_eq!(metas(&c), vec![([1; 32], false, true), ([3; 32], false, true), ([4; 32], true, false)]);
    let c = call(Step::CreateAssociatedAccount { payer: a(2), associated: a(9), wallet: a(4), mint: a(1), token_program: ledger() });
    assert_eq!(c.data, vec![1]);
    assert_eq!(c.program.bytes, token_extension::call::ASSOCIATED_TOKEN_PROGRAM_ID);
    assert_eq!(metas(&c)[0], ([2; 32], true, true));
    assert_eq!(metas(&c)[4], ([0; 32], false, false));
    let c = call(Step::Memo { text: "m".to_string() });
    assert_eq!(c.program.bytes, token_extension::call::MEMO_PROGRAM_ID);
    assert!(c.accounts.is_empty());
    let c = call(Step::CreateAccount { payer: a(1), account: a(2), space: 1, funded_length: 1, owner: ledger() });
    assert_eq!(c.program.bytes, [0; 32]);
    assert_eq!(metas(&c), vec![([1; 32], true, true), ([2; 32], true, true)]);
    let c = call(Step::Reallocate { account: a(5), payer: a(2), owner: a(6), kinds: vec![ExtensionKind::MemoTransfer] });
    assert_eq!(metas(&c), vec![([5; 32], false, true), ([2; 32], true, true), ([0; 32], false, false), ([6; 32], true, false)]);
    let c = call(Step::InitializeMetadata { mint: a(1), authority: a(3), name: "N".to_string(), symbol: "S".to_string(), uri: "u".to_string() });
    assert_eq!(metas(&c), vec![([1; 32], false, true), ([3; 32], false, false), ([1; 32], false, false), ([3; 32], true, false)]);
    let c = call(Step::InitializeGroup { group: a(8), mint: a(1), authority: a(3), max_size: 10 });
    assert_eq!(metas(&c), vec![([8; 32], false, true), ([1; 32], false, false), ([3; 32], true, false)]);
    let c = call(Step::TransferCheckedWithFee { source: a(2), mint: a(1), destination: a(3), authority: a(4), amount: 1, decimals: 2, fee: 0 });
    assert_eq!(metas(&c), vec![([2; 32], false, true), ([1; 32], false, false), ([3; 32], false, true), ([4; 32], true, false)]);
    let legacy = Address::new(Pubkey::from_str("TokenkegQfeZyiNwAJbNbGKPFXCWuBvf9Ss623VQ5DA").unwrap().to_bytes());
    assert_eq!(legacy.bytes, token_extension::call::TOKEN_PROGRAM_ID);
    assert!(call_for(Step::InitializeMint { mint: a(1), decimals: 0, mint_authority: a(3), freeze_authority: None }, &legacy, 0).is_ok());
    assert!(call_for(Step::InitializeExtension { account: a(1), init: ExtensionInit::NonTransferable }, &legacy, 0).is_err());
}
