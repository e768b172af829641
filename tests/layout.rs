use token_extension::layout::{extension_space, layout_calculator, BaseKind, ExtensionKind, Layout};

fn kinds(list: &[ExtensionKind]) -> Vec<ExtensionKind> {
    list.to_vec()
}

#[test]
fn bare_mint_and_account_keep_base_length() {
    assert_eq!(extension_space(BaseKind::Mint, &kinds(&[])), 82);
    assert_eq!(extension_space(BaseKind::Account, &kinds(&[])), 165);
}

#[test]
fn transfer_fee_mint_length() {
    assert_eq!(extension_space(BaseKind::Mint, &kinds(&[ExtensionKind::TransferFeeConfig])), 278);
}

#[test]
fn metadata_pointer_mint_length() {
    assert_eq!(extension_space(BaseKind::Mint, &kinds(&[ExtensionKind::MetadataPointer])), 234);
}

#[test]
fn repeated_extension_counted_once() {
    let k = kinds(&[ExtensionKind::TransferFeeConfig, ExtensionKind::TransferFeeConfig]);
    assert_eq!(extension_space(BaseKind::Mint, &k), 278);
}

#[test]
fn each_extension_has_its_record_length() {
    let table: [(ExtensionKind, BaseKind, usize); 19] = [
        (ExtensionKind::TransferFeeConfig, BaseKind::Mint, 108),
        (ExtensionKind::TransferFeeAmount, BaseKind::Account, 8),
        (ExtensionKind::MintCloseAuthority, BaseKind::Mint, 32),
        (ExtensionKind::ConfidentialTransferMint, BaseKind::Mint, 65),
        (ExtensionKind::DefaultAccountState, BaseKind::Mint, 1),
        (ExtensionKind::ImmutableOwner, BaseKind::Account, 0),
        (ExtensionKind::MemoTransfer, BaseKind::Account, 1),
        (ExtensionKind::NonTransferable, BaseKind::Mint, 0),
        (ExtensionKind::InterestBearingConfig, BaseKind::Mint, 52),
        (ExtensionKind::CpiGuard, BaseKind::Account, 1),
        (ExtensionKind::PermanentDelegate, BaseKind::Mint, 32),
        (ExtensionKind::NonTransferableAccount, BaseKind::Account, 0),
        (ExtensionKind::TransferHook, BaseKind::Mint, 64),
        (ExtensionKind::TransferHookAccount, BaseKind::Account, 1),
        (ExtensionKind::MetadataPointer, BaseKind::Mint, 64),
        (ExtensionKind::GroupPointer, BaseKind::Mint, 64),
        (ExtensionKind::TokenGroup, BaseKind::Mint, 72),
        (ExtensionKind::GroupMemberPointer, BaseKind::Mint, 64),
        (ExtensionKind::TokenGroupMember, BaseKind::Mint, 68),
    ];
    for (k, base, value_len) in table.iter() {
        assert_eq!(extension_space(*base, &kinds(&[*k])), 165 + 1 + 4 + value_len, "{:?}", k);
    }
}

#[test]
fn multisig_length_is_padded() {
    let k = kinds(&[
        ExtensionKind::TransferFeeConfig,
        ExtensionKind::MetadataPointer,
        ExtensionKind::DefaultAccountState,
        ExtensionKind::NonTransferable,
    ]);
    assert_eq!(extension_space(BaseKind::Mint, &k), 357);
}

#[test]
fn layout_covers_base_and_headers() {
    let sets: Vec<Vec<ExtensionKind>> = vec![
        vec![],
        vec![ExtensionKind::ImmutableOwner],
        vec![ExtensionKind::NonTransferable, ExtensionKind::ImmutableOwner],
        vec![ExtensionKind::TransferFeeConfig, ExtensionKind::MintCloseAuthority, ExtensionKind::PermanentDelegate],
    ];
    for set in sets.iter() {
        for base in [BaseKind::Mint, BaseKind::Account] {
            let base_len = if base == BaseKind::Mint { 82 } else { 165 };
            let len = extension_space(base, set);
            assert!(len >= base_len + 4 * set.len());
        }
    }
}

#[test]
fn adding_an_extension_never_shrinks() {
    let mut set: Vec<ExtensionKind> = Vec::new();
    let mut last = extension_space(BaseKind::Account, &set);
    for k in [ExtensionKind::ImmutableOwner, ExtensionKind::MemoTransfer, ExtensionKind::MemoTransfer, ExtensionKind::CpiGuard] {
        set.push(k);
        let now = extension_space(BaseKind::Account, &set);
        assert!(now >= last);
        last = now;
    }
    assert_eq!(last, 165 + 1 + 4 + 5 + 5);
}

#[test]
fn layout_doubles_funding_for_pointers() {
    let k = kinds(&[ExtensionKind::MetadataPointer]);
    assert_eq!(
        layout_calculator(BaseKind::Mint, &k, 0),
        Some(Layout { byte_length: 234, funded_length: 468 })
    );
    let k = kinds(&[ExtensionKind::MetadataPointer]);
    assert_eq!(
        layout_calculator(BaseKind::Mint, &k, 100),
        Some(Layout { byte_length: 234, funded_length: 572 })
    );
    let k = kinds(&[ExtensionKind::TransferFeeConfig]);
    assert_eq!(
        layout_calculator(BaseKind::Mint, &k, 0),
        Some(Layout { byte_length: 278, funded_length: 278 })
    );
}

#[test]
fn layout_reports_overflow() {
    let k = kinds(&[ExtensionKind::TransferFeeConfig]);
    assert_eq!(layout_calculator(BaseKind::Mint, &k, usize::MAX - 3), None);
}
