use spl_token_2022::extension::group_pointer::GroupPointer;
use spl_token_2022::extension::{BaseStateWithExtensionsMut, ExtensionType, StateWithExtensionsMut};
use spl_token_2022::solana_program::program_option::COption;
use spl_token_2022::solana_program::pubkey::Pubkey;
use spl_token_2022::state::Mint;
use token_extension::address::Address;
use token_extension::authority::AccountSnapshot;
use token_extension::error::{ErrorCode, Failure};
use token_extension::group::{initialize_group_pointer, initialize_member_pointer, GroupAccount};
use token_extension::instructions::MintCreation;
use token_extension::steps::{ExtensionInit, Step};

const LEDGER: u8 = 9;

fn addr(n: u8) -> Address {
    Address::new([n; 32])
}

fn group_mint_bytes(pointer: Option<[u8; 32]>) -> Vec<u8> {
    let len = ExtensionType::try_calculate_account_len::<Mint>(&[ExtensionType::GroupPointer]).unwrap();
    let mut data = vec![0u8; len];
    let mut state = StateWithExtensionsMut::<Mint>::unpack_uninitialized(&mut data).unwrap();
    let ext = state.init_extension::<GroupPointer>(true).unwrap();
    ext.group_address = pointer.map(Pubkey::new_from_array).try_into().unwrap();
    state.base = Mint {
        mint_authority: COption::Some(Pubkey::new_from_array([3; 32])),
        decimals: 2,
        is_initialized: true,
        ..Mint::default()
    };
    state.pack_base();
    state.init_account_type().unwrap();
    data
}

fn creation() -> MintCreation {
    MintCreation {
        mint: AccountSnapshot { key: addr(1), owner: addr(0), lamports: 0, data_len: 0 },
        payer: addr(2),
        authority: addr(3),
        ledger_program: addr(LEDGER),
        system_program: addr(0),
    }
}

#[test]
fn member_of_self_pointing_group_is_planned() {
    let group = GroupAccount { key: addr(30), owner: addr(LEDGER), data: group_mint_bytes(Some([30; 32])) };
    let steps = initialize_member_pointer(&creation(), &group, 234, 2).unwrap();
    assert_eq!(steps.len(), 3);
    match &steps[1] {
        Step::InitializeExtension { init: ExtensionInit::GroupMemberPointer { member_address, .. }, .. } => {
            assert_eq!(member_address.unwrap().bytes, [1; 32]);
        }
        other => panic!("unexpected {:?}", other),
    }
}

#[test]
fn member_of_group_pointing_elsewhere_is_refused() {
    let group = GroupAccount { key: addr(30), owner: addr(LEDGER), data: group_mint_bytes(Some([31; 32])) };
    let r = initialize_member_pointer(&creation(), &group, 234, 2);
    assert_eq!(r.unwrap_err(), Failure::Program(ErrorCode::InvalidGroupAddress));
    let group = GroupAccount { key: addr(30), owner: addr(LEDGER), data: group_mint_bytes(None) };
    let r = initialize_member_pointer(&creation(), &group, 234, 2);
    assert_eq!(r.unwrap_err(), Failure::Program(ErrorCode::InvalidGroupAddress));
}

#[test]
fn member_of_undecodable_or_foreign_group_is_refused() {
    let group = GroupAccount { key: addr(30), owner: addr(LEDGER), data: vec![0; 10] };
    let r = initialize_member_pointer(&creation(), &group, 234, 2);
    assert!(matches!(r, Err(Failure::Ledger(_))));
    let group = GroupAccount { key: addr(30), owner: addr(8), data: group_mint_bytes(Some([30; 32])) };
    let r = initialize_member_pointer(&creation(), &group, 234, 2);
    assert_eq!(r.unwrap_err(), Failure::Program(ErrorCode::InvalidAccountOwner));
}

#[test]
fn group_pointer_plans_both_accounts() {
    let group = AccountSnapshot { key: addr(30), owner: addr(0), lamports: 0, data_len: 0 };
    let steps = initialize_group_pointer(&creation(), &group, 234, 80, 2, 10).unwrap();
    assert_eq!(steps.len(), 5);
    assert!(matches!(steps[0], Step::CreateAccount { space: 234, funded_length: 468, .. }));
    assert!(matches!(steps[1], Step::CreateAccount { space: 80, funded_length: 80, .. }));
    assert!(matches!(steps[4], Step::InitializeGroup { max_size: 10, .. }));
    let used = AccountSnapshot { key: addr(30), owner: addr(LEDGER), lamports: 5, data_len: 80 };
    assert_eq!(
        initialize_group_pointer(&creation(), &used, 234, 80, 2, 10).unwrap_err(),
        ErrorCode::AlreadyInUse
    );
}
