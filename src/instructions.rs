use vstd::prelude::*;
use crate::address::Address;
use crate::authority::{check_owned_by, check_unallocated, fresh_error, AccountSnapshot};
use crate::error::ErrorCode;
use crate::layout::{BaseKind, ExtensionKind};
use crate::metadata::{metadata_error, validate_metadata, Field};
use crate::provision::Provisioning;
use crate::steps::{account_state_from, account_state_of, init_kind, AccountStateKind, ExtensionInit, Step};

verus! {

/// The accounts that the creation of a mint reads: the mint to create, who pays for
/// it, who holds its authorities, and the two programs involved.
#[derive(Debug, Clone, Copy)]
pub struct MintCreation {
    pub mint: AccountSnapshot,
    pub payer: Address,
    pub authority: Address,
    pub ledger_program: Address,
    pub system_program: Address,
}

/// The step that creates `account` for the ledger program.
pub open spec fn create_step(acc: MintCreation, account: Address, space: u64, funded: u64) -> Step {
    Step::CreateAccount {
        payer: acc.payer,
        account,
        space,
        funded_length: funded,
        owner: acc.ledger_program,
    }
}

/// The step that initializes the mint, with `acc.authority` as its mint authority.
pub open spec fn mint_step(acc: MintCreation, decimals: u8, freeze: Option<Address>) -> Step {
    Step::InitializeMint {
        mint: acc.mint.key,
        decimals,
        mint_authority: acc.authority,
        freeze_authority: freeze,
    }
}

/// The steps that create a mint with one extension: create it, write the extension,
/// initialize the mint.
pub open spec fn mint_plan(
    acc: MintCreation,
    space: u64,
    funded: u64,
    init: ExtensionInit,
    decimals: u8,
    freeze: Option<Address>,
) -> Seq<Step> {
    seq![
        create_step(acc, acc.mint.key, space, funded),
        Step::InitializeExtension { account: acc.mint.key, init },
        mint_step(acc, decimals, freeze),
    ]
}

/// The creation of a mint with the single extension `init`, with its base state
/// initialized.
pub fn provision_mint_with(
    acc: &MintCreation,
    space: u64,
    funded: u64,
    init: ExtensionInit,
    decimals: u8,
    freeze: Option<Address>,
) -> (r: Result<Provisioning, ErrorCode>)
    ensures
        r is Ok <==> fresh_error(acc.mint, acc.system_program) is None,
        r matches Err(e) ==> fresh_error(acc.mint, acc.system_program) == Some(e),
        r matches Ok(p) ==> p.steps@ == mint_plan(*acc, space, funded, init, decimals, freeze)
            && p.finalized && p.account == acc.mint.key && p.base == BaseKind::Mint && p.wf(),
{
    let mut requested: Vec<ExtensionKind> = Vec::new();
    requested.push(init.kind());
    let mut p = match Provisioning::open(
        &acc.mint,
        &acc.system_program,
        &acc.payer,
        &acc.ledger_program,
        BaseKind::Mint,
        requested,
        space,
        funded,
    ) {
        Err(e) => {
            return Err(e);
        },
        Ok(p) => p,
    };
    assert(p.requested@[0] == init_kind(init));
    let r1 = p.initialize_extension(init);
    assert(r1 is Ok);
    assert(p.initialized@ =~= seq![init_kind(init)]);
    assert(p.initialized@.contains(init_kind(init))) by {
        assert(p.initialized@[0] == init_kind(init));
    }
    let r2 = p.finalize_mint(decimals, acc.authority, freeze);
    assert(r2 is Ok);
    assert(p.steps@ =~= mint_plan(*acc, space, funded, init, decimals, freeze));
    Ok(p)
}

/// Plans a mint whose account can later be closed by `acc.authority`: six decimals.
pub fn mint_close_authority(acc: &MintCreation, data_len: u64) -> (r: Result<Vec<Step>, ErrorCode>)
    ensures
        r is Ok <==> fresh_error(acc.mint, acc.system_program) is None,
        r matches Err(e) ==> fresh_error(acc.mint, acc.system_program) == Some(e),
        r matches Ok(steps) ==> steps@ == mint_plan(
            *acc,
            data_len,
            data_len,
            ExtensionInit::MintCloseAuthority { close_authority: Some(acc.authority) },
            6,
            None,
        ),
{
    let init = ExtensionInit::MintCloseAuthority { close_authority: Some(acc.authority) };
    match provision_mint_with(acc, data_len, data_len, init, 6, None) {
        Err(e) => Err(e),
        Ok(p) => Ok(p.steps),
    }
}

/// Plans a mint that withholds a fee of `basis_points` (at most `maximum_fee`) on each
/// transfer: two decimals.
pub fn transfer_fee_config(
    acc: &MintCreation,
    data_len: u64,
    config_authority: Option<Address>,
    withdraw_authority: Option<Address>,
    basis_points: u16,
    maximum_fee: u64,
) -> (r: Result<Vec<Step>, ErrorCode>)
    ensures
        r is Ok <==> fresh_error(acc.mint, acc.system_program) is None,
        r matches Err(e) ==> fresh_error(acc.mint, acc.system_program) == Some(e),
        r matches Ok(steps) ==> steps@ == mint_plan(
            *acc,
            data_len,
            data_len,
            ExtensionInit::TransferFeeConfig {
                config_authority,
                withdraw_authority,
                basis_points,
                maximum_fee,
            },
            2,
            None,
        ),
{
    let init = ExtensionInit::TransferFeeConfig {
        config_authority,
        withdraw_authority,
        basis_points,
        maximum_fee,
    };
    match provision_mint_with(acc, data_len, data_len, init, 2, None) {
        Err(e) => Err(e),
        Ok(p) => Ok(p.steps),
    }
}

/// Plans a mint whose new accounts start frozen, with `acc.authority` as freeze
/// authority: two decimals.
pub fn default_account_state(acc: &MintCreation, data_len: u64) -> (r: Result<Vec<Step>, ErrorCode>)
    ensures
        r is Ok <==> fresh_error(acc.mint, acc.system_program) is None,
        r matches Err(e) ==> fresh_error(acc.mint, acc.system_program) == Some(e),
        r matches Ok(steps) ==> steps@ == mint_plan(
            *acc,
            data_len,
            data_len,
            ExtensionInit::DefaultAccountState { state: AccountStateKind::Frozen },
            2,
            Some(acc.authority),
        ),
{
    let init = ExtensionInit::DefaultAccountState { state: AccountStateKind::Frozen };
    match provision_mint_with(acc, data_len, data_len, init, 2, Some(acc.authority)) {
        Err(e) => Err(e),
        Ok(p) => Ok(p.steps),
    }
}

/// Plans a mint that accrues interest at `rate` basis points, with `acc.authority` as
/// rate authority: two decimals.
pub fn interest_bearing_token(acc: &MintCreation, mint_len: u64, rate: i16) -> (r: Result<
    Vec<Step>,
    ErrorCode,
>)
    ensures
        r is Ok <==> fresh_error(acc.mint, acc.system_program) is None,
        r matches Err(e) ==> fresh_error(acc.mint, acc.system_program) == Some(e),
        r matches Ok(steps) ==> steps@ == mint_plan(
            *acc,
            mint_len,
            mint_len,
            ExtensionInit::InterestBearing { rate_authority: Some(acc.authority), rate },
            2,
            None,
        ),
{
    let init = ExtensionInit::InterestBearing { rate_authority: Some(acc.authority), rate };
    match provision_mint_with(acc, mint_len, mint_len, init, 2, None) {
        Err(e) => Err(e),
        Ok(p) => Ok(p.steps),
    }
}

/// Plans a mint with `acc.authority` as permanent delegate over all its accounts: no
/// decimals.
pub fn permanent_delegate(acc: &MintCreation, mint_len: u64) -> (r: Result<Vec<Step>, ErrorCode>)
    ensures
        r is Ok <==> fresh_error(acc.mint, acc.system_program) is None,
        r matches Err(e) ==> fresh_error(acc.mint, acc.system_program) == Some(e),
        r matches Ok(steps) ==> steps@ == mint_plan(
            *acc,
            mint_len,
            mint_len,
            ExtensionInit::PermanentDelegate { delegate: acc.authority },
            0,
            None,
        ),
{
    let init = ExtensionInit::PermanentDelegate { delegate: acc.authority };
    match provision_mint_with(acc, mint_len, mint_len, init, 0, None) {
        Err(e) => Err(e),
        Ok(p) => Ok(p.steps),
    }
}

/// Plans a mint whose transfers call `hook_program`: two decimals.
pub fn initialize_hook_mint(
    acc: &MintCreation,
    mint_len: u64,
    hook_program: Option<Address>,
) -> (r: Result<Vec<Step>, ErrorCode>)
    ensures
        r is Ok <==> fresh_error(acc.mint, acc.system_program) is None,
        r matches Err(e) ==> fresh_error(acc.mint, acc.system_program) == Some(e),
        r matches Ok(steps) ==> steps@ == mint_plan(
            *acc,
            mint_len,
            mint_len,
            ExtensionInit::TransferHook { authority: Some(acc.authority), program_id: hook_program },
            2,
            None,
        ),
{
    let init = ExtensionInit::TransferHook { authority: Some(acc.authority), program_id: hook_program };
    match provision_mint_with(acc, mint_len, mint_len, init, 2, None) {
        Err(e) => Err(e),
        Ok(p) => Ok(p.steps),
    }
}

/// Plans a mint that carries its own metadata record: the pointer names the mint, and
/// the account is funded for twice `mint_len` so that the record fits when it is
/// written after the mint is initialized. The accounts are checked first, then the
/// name, symbol and uri.
pub fn initialize_metadata_pointer(
    acc: &MintCreation,
    mint_len: u64,
    decimals: u8,
    name: String,
    symbol: String,
    uri: String,
) -> (r: Result<Vec<Step>, ErrorCode>)
    requires
        mint_len <= u64::MAX / 2,
    ensures
        fresh_error(acc.mint, acc.system_program) matches Some(e) ==> r == Err::<Vec<Step>, ErrorCode>(e),
        fresh_error(acc.mint, acc.system_program) is None ==> (r is Ok <==> metadata_error(name@, symbol@, uri@) is None),
        fresh_error(acc.mint, acc.system_program) is None ==> (metadata_error(name@, symbol@, uri@) matches Some(e)
            ==> r == Err::<Vec<Step>, ErrorCode>(e)),
        r matches Ok(steps) ==> steps@ == mint_plan(
            *acc,
            mint_len,
            (2 * mint_len) as u64,
            ExtensionInit::MetadataPointer {
                authority: Some(acc.authority),
                metadata_address: Some(acc.mint.key),
            },
            decimals,
            None,
        ).push(
            Step::InitializeMetadata { mint: acc.mint.key, authority: acc.authority, name, symbol, uri },
        ),
{
    match check_unallocated(&acc.mint, &acc.system_program) {
        Err(e) => {
            return Err(e);
        },
        Ok(()) => {},
    }
    match validate_metadata(&name, &symbol, &uri) {
        Err(e) => {
            return Err(e);
        },
        Ok(()) => {},
    }
    let init = ExtensionInit::MetadataPointer {
        authority: Some(acc.authority),
        metadata_address: Some(acc.mint.key),
    };
    let mut p = match provision_mint_with(acc, mint_len, 2 * mint_len, init, decimals, None) {
        Err(e) => {
            return Err(e);
        },
        Ok(p) => p,
    };
    let r = p.follow_with(
        Step::InitializeMetadata { mint: acc.mint.key, authority: acc.authority, name, symbol, uri },
    );
    assert(r is Ok);
    Ok(p.steps)
}

/// Sets one field of a mint's metadata record, as `authority`. The mint must belong to
/// the ledger program.
pub fn update_metadata_field(
    mint: &AccountSnapshot,
    ledger_program: &Address,
    authority: &Address,
    field: Field,
    value: String,
) -> (r: Result<Vec<Step>, ErrorCode>)
    ensures
        r is Ok <==> mint.owner@ == ledger_program@,
        r matches Err(e) ==> e == ErrorCode::InvalidAccountOwner,
        r matches Ok(steps) ==> steps@ == seq![
            Step::UpdateMetadataField { mint: mint.key, authority: *authority, field, value },
        ],
{
    match check_owned_by(mint, ledger_program) {
        Err(e) => Err(e),
        Ok(()) => {
            let mut steps: Vec<Step> = Vec::new();
            steps.push(
                Step::UpdateMetadataField { mint: mint.key, authority: *authority, field, value },
            );
            assert(steps@ =~= seq![
                Step::UpdateMetadataField { mint: mint.key, authority: *authority, field, value },
            ]);
            Ok(steps)
        },
    }
}

/// Changes the state that new accounts of a mint start in, from its byte. The mint
/// must belong to the ledger program; the byte must name a state.
pub fn update_default_account_state(
    mint: &AccountSnapshot,
    ledger_program: &Address,
    freeze_authority: &Address,
    account_state: u8,
) -> (r: Result<Vec<Step>, ErrorCode>)
    ensures
        mint.owner@ != ledger_program@ ==> r == Err::<Vec<Step>, ErrorCode>(ErrorCode::InvalidAccountOwner),
        mint.owner@ == ledger_program@ && account_state_of(account_state) is None ==> r
            == Err::<Vec<Step>, ErrorCode>(ErrorCode::InvalidAccountState),
        r is Ok <==> mint.owner@ == ledger_program@ && account_state_of(account_state) is Some,
        r matches Ok(steps) ==> steps@ == seq![
            Step::UpdateDefaultAccountState {
                mint: mint.key,
                freeze_authority: *freeze_authority,
                state: account_state_of(account_state)->Some_0,
            },
        ],
{
    match check_owned_by(mint, ledger_program) {
        Err(e) => {
            return Err(e);
        },
        Ok(()) => {},
    }
    let state = match account_state_from(account_state) {
        Err(e) => {
            return Err(e);
        },
        Ok(s) => s,
    };
    let mut steps: Vec<Step> = Vec::new();
    steps.push(
        Step::UpdateDefaultAccountState { mint: mint.key, freeze_authority: *freeze_authority, state },
    );
    assert(steps@ =~= seq![
        Step::UpdateDefaultAccountState { mint: mint.key, freeze_authority: *freeze_authority, state },
    ]);
    Ok(steps)
}

/// The accounts that the creation of a token account reads: the account to create,
/// its mint, who will hold it, who pays, and the two programs involved.
#[derive(Debug, Clone, Copy)]
pub struct AccountCreation {
    pub account: AccountSnapshot,
    pub mint: AccountSnapshot,
    pub owner: Address,
    pub payer: Address,
    pub ledger_program: Address,
    pub system_program: Address,
}

/// Why a token account cannot be created, if it cannot: its mint must belong to the
/// ledger program, and the account must be unallocated.
pub open spec fn account_creation_error(acc: AccountCreation) -> Option<ErrorCode> {
    if acc.mint.owner@ != acc.ledger_program@ {
        Some(ErrorCode::InvalidAccountOwner)
    } else {
        fresh_error(acc.account, acc.system_program)
    }
}

/// The steps that create a token account with no extension and initialize it.
pub open spec fn account_plan(acc: AccountCreation, space: u64) -> Seq<Step> {
    seq![
        Step::CreateAccount {
            payer: acc.payer,
            account: acc.account.key,
            space,
            funded_length: space,
            owner: acc.ledger_program,
        },
        Step::InitializeAccount { account: acc.account.key, mint: acc.mint.key, owner: acc.owner },
    ]
}

/// The creation of a token account with no extension, with its base state initialized.
pub fn provision_account(acc: &AccountCreation, space: u64) -> (r: Result<Provisioning, ErrorCode>)
    ensures
        r is Ok <==> account_creation_error(*acc) is None,
        r matches Err(e) ==> account_creation_error(*acc) == Some(e),
        r matches Ok(p) ==> p.steps@ == account_plan(*acc, space) && p.finalized && p.account
            == acc.account.key && p.wf(),
{
    match check_owned_by(&acc.mint, &acc.ledger_program) {
        Err(e) => {
            return Err(e);
        },
        Ok(()) => {},
    }
    let mut p = match Provisioning::open(
        &acc.account,
        &acc.system_program,
        &acc.payer,
        &acc.ledger_program,
        BaseKind::Account,
        Vec::new(),
        space,
        space,
    ) {
        Err(e) => {
            return Err(e);
        },
        Ok(p) => p,
    };
    let r = p.finalize_account(acc.mint.key, acc.owner);
    assert(r is Ok);
    assert(p.steps@ =~= account_plan(*acc, space));
    Ok(p)
}

/// Plans a token account of `acc.mint` held by `acc.owner`.
pub fn initialize_token_account_with(acc: &AccountCreation, account_len: u64) -> (r: Result<
    Vec<Step>,
    ErrorCode,
>)
    ensures
        r is Ok <==> account_creation_error(*acc) is None,
        r matches Err(e) ==> account_creation_error(*acc) == Some(e),
        r matches Ok(steps) ==> steps@ == account_plan(*acc, account_len),
{
    match provision_account(acc, account_len) {
        Err(e) => Err(e),
        Ok(p) => Ok(p.steps),
    }
}

/// Plans a token account that requires a memo on every incoming transfer.
pub fn enable_memo(acc: &AccountCreation, account_len: u64) -> (r: Result<Vec<Step>, ErrorCode>)
    ensures
        r is Ok <==> account_creation_error(*acc) is None,
        r matches Err(e) ==> account_creation_error(*acc) == Some(e),
        r matches Ok(steps) ==> steps@ == account_plan(*acc, account_len).push(
            Step::EnableRequiredMemos { account: acc.account.key, owner: acc.owner },
        ),
{
    let mut p = match provision_account(acc, account_len) {
        Err(e) => {
            return Err(e);
        },
        Ok(p) => p,
    };
    let r = p.follow_with(Step::EnableRequiredMemos { account: acc.account.key, owner: acc.owner });
    assert(r is Ok);
    Ok(p.steps)
}

/// Plans growing an initialized token account by a required-memo record, then turning
/// the requirement on. The account must belong to the ledger program.
pub fn realloc(
    token_account: &AccountSnapshot,
    ledger_program: &Address,
    payer: &Address,
    owner: &Address,
) -> (r: Result<Vec<Step>, ErrorCode>)
    ensures
        r is Ok <==> token_account.owner@ == ledger_program@,
        r matches Err(e) ==> e == ErrorCode::InvalidAccountOwner,
        r matches Ok(steps) ==> steps@.len() == 2 && steps@[0] == (Step::Reallocate {
            account: token_account.key,
            payer: *payer,
            owner: *owner,
            kinds: steps@[0]->Reallocate_kinds,
        }) && steps@[0]->Reallocate_kinds@ == seq![ExtensionKind::MemoTransfer] && steps@[1] == (
        Step::EnableRequiredMemos { account: token_account.key, owner: *owner }),
{
    match check_owned_by(token_account, ledger_program) {
        Err(e) => {
            return Err(e);
        },
        Ok(()) => {},
    }
    let mut kinds: Vec<ExtensionKind> = Vec::new();
    kinds.push(ExtensionKind::MemoTransfer);
    let mut steps: Vec<Step> = Vec::new();
    steps.push(Step::Reallocate { account: token_account.key, payer: *payer, owner: *owner, kinds });
    steps.push(Step::EnableRequiredMemos { account: token_account.key, owner: *owner });
    Ok(steps)
}

/// The steps that create a mint with no extension, then a token account of it whose
/// owner cannot be changed, both held by `acc.authority`.
pub open spec fn immutable_owner_plan(acc: MintCreation, account: AccountSnapshot, mint_len: u64, account_len: u64) -> Seq<Step> {
    seq![
        create_step(acc, acc.mint.key, mint_len, mint_len),
        mint_step(acc, 2, None),
        create_step(acc, account.key, account_len, account_len),
        Step::InitializeExtension { account: account.key, init: ExtensionInit::ImmutableOwner },
        Step::InitializeAccount { account: account.key, mint: acc.mint.key, owner: acc.authority },
    ]
}

/// Plans a mint (two decimals) and a token account of it whose owner cannot be
/// changed. Both must be unallocated; the mint is checked first.
pub fn immutable_owner(
    acc: &MintCreation,
    account: &AccountSnapshot,
    mint_len: u64,
    account_len: u64,
) -> (r: Result<Vec<Step>, ErrorCode>)
    ensures
        fresh_error(acc.mint, acc.system_program) matches Some(e) ==> r == Err::<Vec<Step>, ErrorCode>(e),
        fresh_error(acc.mint, acc.system_program) is None ==> (fresh_error(*account, acc.system_program) matches Some(e)
            ==> r == Err::<Vec<Step>, ErrorCode>(e)),
        r is Ok <==> fresh_error(acc.mint, acc.system_program) is None && fresh_error(
            *account,
            acc.system_program,
        ) is None,
        r matches Ok(steps) ==> steps@ == immutable_owner_plan(*acc, *account, mint_len, account_len),
{
    let mut m = match Provisioning::open(
        &acc.mint,
        &acc.system_program,
        &acc.payer,
        &acc.ledger_program,
        BaseKind::Mint,
        Vec::new(),
        mint_len,
        mint_len,
    ) {
        Err(e) => {
            return Err(e);
        },
        Ok(p) => p,
    };
    let mut a = match Provisioning::open(
        account,
        &acc.system_program,
        &acc.payer,
        &acc.ledger_program,
        BaseKind::Account,
        vec![ExtensionKind::ImmutableOwner],
        account_len,
        account_len,
    ) {
        Err(e) => {
            return Err(e);
        },
        Ok(p) => p,
    };
    let r1 = m.finalize_mint(2, acc.authority, None);
    assert(r1 is Ok);
    assert(a.requested@[0] == ExtensionKind::ImmutableOwner);
    let r2 = a.initialize_extension(ExtensionInit::ImmutableOwner);
    assert(r2 is Ok);
    assert(a.initialized@[0] == ExtensionKind::ImmutableOwner);
    let r3 = a.finalize_account(acc.mint.key, acc.authority);
    assert(r3 is Ok);
    let mut steps = m.steps;
    let mut rest = a.steps;
    steps.append(&mut rest);
    assert(steps@ =~= immutable_owner_plan(*acc, *account, mint_len, account_len));
    Ok(steps)
}

} // verus!
