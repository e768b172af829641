use token_extension::address::Address;
use token_extension::authority::AccountSnapshot;
use token_extension::error::ErrorCode;
use token_extension::instructions::{
    default_account_state, enable_memo, immutable_owner, initialize_metadata_pointer,
    initialize_token_account_with, interest_bearing_token, mint_close_authority,
    permanent_delegate, realloc, transfer_fee_config, update_default_account_state,
    AccountCreation, MintCreation,
};
use token_extension::layout::{BaseKind, ExtensionKind};
use token_extension::provision::Provisioning;
use token_extension::steps::{AccountStateKind, ExtensionInit, Step};

fn addr(n: u8) -> Address {
    Address::new([n; 32])
}

const SYSTEM: u8 = 0;
const LEDGER: u8 = 9;

fn fresh(n: u8) -> AccountSnapshot {
    AccountSnapshot { key: addr(n), owner: addr(SYSTEM), lamports: 0, data_len: 0 }
}

fn creation() -> MintCreation {
    MintCreation {
        mint: fresh(1),
        payer: addr(2),
        authority: addr(3),
        ledger_program: addr(LEDGER),
        system_program: addr(SYSTEM),
    }
}

fn is_create(s: &Step, account: u8, space: u64, funded: u64) -> bool {
    match s {
        Step::CreateAccount { account: a, space: sp, funded_length, owner, payer } => {
            a.bytes == [account; 32]
                && *sp == space
                && *funded_length == funded
                && owner.bytes == [LEDGER; 32]
                && payer.bytes == [2; 32]
        }
        _ => false,
    }
}

#[test]
fn mint_close_authority_plans_three_steps_in_order() {
    let steps = mint_close_authority(&creation(), 234).unwrap();
    assert_eq!(steps.len(), 3);
    assert!(is_create(&steps[0], 1, 234, 234));
    match &steps[1] {
        Step::InitializeExtension { account, init: ExtensionInit::MintCloseAuthority { close_authority } } => {
            assert_eq!(account.bytes, [1; 32]);
            assert_eq!(close_authority.unwrap().bytes, [3; 32]);
        }
        other => panic!("unexpected {:?}", other),
    }
    match &steps[2] {
        Step::InitializeMint { mint, decimals, mint_authority, freeze_authority } => {
            assert_eq!(mint.bytes, [1; 32]);
            assert_eq!(*decimals, 6);
            assert_eq!(mint_authority.bytes, [3; 32]);
            assert!(freeze_authority.is_none());
        }
        other => panic!("unexpected {:?}", other),
    }
}

#[test]
fn provisioning_twice_is_already_in_use() {
    let acc = creation();
    let steps = transfer_fee_config(&acc, 278, None, None, 200, 1000).unwrap();
    let (space, owner) = match &steps[0] {
        Step::CreateAccount { space, owner, .. } => (*space, *owner),
        other => panic!("unexpected {:?}", other),
    };
    let mut again = acc;
    again.mint = AccountSnapshot { key: acc.mint.key, owner, lamports: 1_000_000, data_len: space as usize };
    assert_eq!(transfer_fee_config(&again, 278, None, None, 200, 1000).unwrap_err(), ErrorCode::AlreadyInUse);
}

#[test]
fn non_system_owner_is_refused() {
    let mut acc = creation();
    acc.mint.owner = addr(7);
    assert_eq!(mint_close_authority(&acc, 234).unwrap_err(), ErrorCode::InvalidAccountOwner);
}

#[test]
fn finalize_before_extension_is_refused() {
    let acc = creation();
    let mut p = Provisioning::open(
        &acc.mint,
        &acc.system_program,
        &acc.payer,
        &acc.ledger_program,
        BaseKind::Mint,
        vec![ExtensionKind::TransferFeeConfig],
        278,
        278,
    )
    .unwrap();
    assert_eq!(p.finalize_mint(2, addr(3), None), Err(ErrorCode::InvalidSequence));
    assert!(!p.finalized);
    assert_eq!(p.steps.len(), 1);
    let init = ExtensionInit::TransferFeeConfig {
        config_authority: None,
        withdraw_authority: None,
        basis_points: 200,
        maximum_fee: 1000,
    };
    assert_eq!(p.initialize_extension(init), Ok(()));
    assert_eq!(p.initialize_extension(init), Err(ErrorCode::InvalidSequence));
    assert_eq!(p.finalize_mint(2, addr(3), None), Ok(()));
    assert_eq!(p.initialize_extension(init), Err(ErrorCode::InvalidSequence));
    assert_eq!(p.finalize_mint(2, addr(3), None), Err(ErrorCode::InvalidSequence));
    assert_eq!(p.steps.len(), 3);
}

#[test]
fn unrequested_extension_is_refused() {
    let acc = creation();
    let mut p = Provisioning::open(
        &acc.mint,
        &acc.system_program,
        &acc.payer,
        &acc.ledger_program,
        BaseKind::Mint,
        vec![],
        82,
        82,
    )
    .unwrap();
    assert_eq!(p.initialize_extension(ExtensionInit::NonTransferable), Err(ErrorCode::InvalidSequence));
    assert_eq!(p.finalize_account(addr(1), addr(3)), Err(ErrorCode::InvalidSequence));
    assert_eq!(p.finalize_mint(0, addr(3), None), Ok(()));
}

#[test]
fn default_account_state_freezes_with_authority() {
    let steps = default_account_state(&creation(), 171).unwrap();
    assert!(matches!(
        steps[1],
        Step::InitializeExtension { init: ExtensionInit::DefaultAccountState { state: AccountStateKind::Frozen }, .. }
    ));
    match &steps[2] {
        Step::InitializeMint { decimals, freeze_authority, .. } => {
            assert_eq!(*decimals, 2);
            assert_eq!(freeze_authority.unwrap().bytes, [3; 32]);
        }
        other => panic!("unexpected {:?}", other),
    }
}

#[test]
fn interest_and_delegate_mints() {
    let steps = interest_bearing_token(&creation(), 222, 150).unwrap();
    assert!(matches!(steps[1], Step::InitializeExtension { init: ExtensionInit::InterestBearing { rate: 150, .. }, .. }));
    let steps = permanent_delegate(&creation(), 202).unwrap();
    assert!(matches!(steps[2], Step::InitializeMint { decimals: 0, .. }));
}

#[test]
fn metadata_pointer_checks_fields_and_doubles_funding() {
    let acc = creation();
    let e = initialize_metadata_pointer(&acc, 234, 9, String::new(), "S".to_string(), "u".to_string());
    assert_eq!(e.unwrap_err(), ErrorCode::InvalidName);
    let e = initialize_metadata_pointer(&acc, 234, 9, "N".to_string(), String::new(), "u".to_string());
    assert_eq!(e.unwrap_err(), ErrorCode::InvalidSymbol);
    let e = initialize_metadata_pointer(&acc, 234, 9, "N".to_string(), "S".to_string(), String::new());
    assert_eq!(e.unwrap_err(), ErrorCode::InvalidUri);
    let steps =
        initialize_metadata_pointer(&acc, 234, 9, "N".to_string(), "S".to_string(), "u".to_string()).unwrap();
    assert_eq!(steps.len(), 4);
    assert!(is_create(&steps[0], 1, 234, 468));
    match &steps[3] {
        Step::InitializeMetadata { name, symbol, uri, .. } => {
            assert_eq!((name.as_str(), symbol.as_str(), uri.as_str()), ("N", "S", "u"));
        }
        other => panic!("unexpected {:?}", other),
    }
}

#[test]
fn immutable_owner_creates_mint_then_account() {
    let acc = creation();
    let steps = immutable_owner(&acc, &fresh(4), 82, 170).unwrap();
    assert_eq!(steps.len(), 5);
    assert!(is_create(&steps[0], 1, 82, 82));
    assert!(matches!(steps[1], Step::InitializeMint { decimals: 2, .. }));
    assert!(is_create(&steps[2], 4, 170, 170));
    assert!(matches!(steps[3], Step::InitializeExtension { init: ExtensionInit::ImmutableOwner, .. }));
    assert!(matches!(steps[4], Step::InitializeAccount { .. }));
    let mut used = fresh(4);
    used.data_len = 170;
    assert_eq!(immutable_owner(&acc, &used, 82, 170).unwrap_err(), ErrorCode::AlreadyInUse);
}

fn account_creation() -> AccountCreation {
    AccountCreation {
        account: fresh(5),
        mint: AccountSnapshot { key: addr(1), owner: addr(LEDGER), lamports: 1, data_len: 278 },
        owner: addr(6),
        payer: addr(2),
        ledger_program: addr(LEDGER),
        system_program: addr(SYSTEM),
    }
}

#[test]
fn token_account_and_memo_plans() {
    let steps = initialize_token_account_with(&account_creation(), 170).unwrap();
    assert_eq!(steps.len(), 2);
    let steps = enable_memo(&account_creation(), 175).unwrap();
    assert_eq!(steps.len(), 3);
    assert!(matches!(steps[2], Step::EnableRequiredMemos { .. }));
    let mut acc = account_creation();
    acc.mint.owner = addr(8);
    assert_eq!(enable_memo(&acc, 175).unwrap_err(), ErrorCode::InvalidAccountOwner);
}

#[test]
fn realloc_grows_then_enables_memo() {
    let account = AccountSnapshot { key: addr(5), owner: addr(LEDGER), lamports: 1, data_len: 170 };
    let steps = realloc(&account, &addr(LEDGER), &addr(2), &addr(6)).unwrap();
    match &steps[0] {
        Step::Reallocate { kinds, .. } => assert_eq!(kinds, &vec![ExtensionKind::MemoTransfer]),
        other => panic!("unexpected {:?}", other),
    }
    assert!(matches!(steps[1], Step::EnableRequiredMemos { .. }));
    assert_eq!(realloc(&account, &addr(8), &addr(2), &addr(6)).unwrap_err(), ErrorCode::InvalidAccountOwner);
}

#[test]
fn default_state_update_reads_its_byte() {
    let mint = AccountSnapshot { key: addr(1), owner: addr(LEDGER), lamports: 1, data_len: 171 };
    let steps = update_default_account_state(&mint, &addr(LEDGER), &addr(3), 1).unwrap();
    assert!(matches!(steps[0], Step::UpdateDefaultAccountState { state: AccountStateKind::Initialized, .. }));
    assert_eq!(
        update_default_account_state(&mint, &addr(LEDGER), &addr(3), 3).unwrap_err(),
        ErrorCode::InvalidAccountState
    );
}
