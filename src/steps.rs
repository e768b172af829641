use vstd::prelude::*;
use crate::address::Address;
use crate::error::ErrorCode;
use crate::layout::ExtensionKind;
use crate::metadata::Field;

verus! {

/// The state that a new token account starts in.
#[derive(Debug, Clone, Copy, PartialEq, Eq, Structural)]
pub enum AccountStateKind {
    Uninitialized,
    Initialized,
    Frozen,
}

/// The account state that a byte stands for, if any.
pub open spec fn account_state_of(v: u8) -> Option<AccountStateKind> {
    if v == 0 {
        Some(AccountStateKind::Uninitialized)
    } else if v == 1 {
        Some(AccountStateKind::Initialized)
    } else if v == 2 {
        Some(AccountStateKind::Frozen)
    } else {
        None
    }
}

/// The byte of an account state.
pub open spec fn state_byte(s: AccountStateKind) -> u8 {
    match s {
        AccountStateKind::Uninitialized => 0,
        AccountStateKind::Initialized => 1,
        AccountStateKind::Frozen => 2,
    }
}

impl AccountStateKind {
    /// The byte of this state.
    pub fn byte(&self) -> (r: u8)
        ensures
            r == state_byte(*self),
            r <= 2,
    {
        match self {
            AccountStateKind::Uninitialized => 0,
            AccountStateKind::Initialized => 1,
            AccountStateKind::Frozen => 2,
        }
    }
}

/// Reads an account state from its byte.
pub fn account_state_from(v: u8) -> (r: Result<AccountStateKind, ErrorCode>)
    ensures
        r is Ok <==> account_state_of(v) is Some,
        r matches Ok(s) ==> account_state_of(v) == Some(s),
        r matches Err(e) ==> e == ErrorCode::InvalidAccountState,
{
    if v == 0 {
        Ok(AccountStateKind::Uninitialized)
    } else if v == 1 {
        Ok(AccountStateKind::Initialized)
    } else if v == 2 {
        Ok(AccountStateKind::Frozen)
    } else {
        Err(ErrorCode::InvalidAccountState)
    }
}

/// The parameters of one extension, written into an account before its base state.
#[derive(Debug, Clone, Copy)]
pub enum ExtensionInit {
    TransferFeeConfig {
        config_authority: Option<Address>,
        withdraw_authority: Option<Address>,
        basis_points: u16,
        maximum_fee: u64,
    },
    MintCloseAuthority { close_authority: Option<Address> },
    DefaultAccountState { state: AccountStateKind },
    ImmutableOwner,
    NonTransferable,
    InterestBearing { rate_authority: Option<Address>, rate: i16 },
    PermanentDelegate { delegate: Address },
    TransferHook { authority: Option<Address>, program_id: Option<Address> },
    MetadataPointer { authority: Option<Address>, metadata_address: Option<Address> },
    GroupPointer { authority: Option<Address>, group_address: Option<Address> },
    GroupMemberPointer { authority: Option<Address>, member_address: Option<Address> },
}

/// The extension that an initialization writes.
pub open spec fn init_kind(init: ExtensionInit) -> ExtensionKind {
    match init {
        ExtensionInit::TransferFeeConfig { .. } => ExtensionKind::TransferFeeConfig,
        ExtensionInit::MintCloseAuthority { .. } => ExtensionKind::MintCloseAuthority,
        ExtensionInit::DefaultAccountState { .. } => ExtensionKind::DefaultAccountState,
        ExtensionInit::ImmutableOwner => ExtensionKind::ImmutableOwner,
        ExtensionInit::NonTransferable => ExtensionKind::NonTransferable,
        ExtensionInit::InterestBearing { .. } => ExtensionKind::InterestBearingConfig,
        ExtensionInit::PermanentDelegate { .. } => ExtensionKind::PermanentDelegate,
        ExtensionInit::TransferHook { .. } => ExtensionKind::TransferHook,
        ExtensionInit::MetadataPointer { .. } => ExtensionKind::MetadataPointer,
        ExtensionInit::GroupPointer { .. } => ExtensionKind::GroupPointer,
        ExtensionInit::GroupMemberPointer { .. } => ExtensionKind::GroupMemberPointer,
    }
}

impl ExtensionInit {
    /// The extension that this initialization writes.
    pub fn kind(&self) -> (r: ExtensionKind)
        ensures
            r == init_kind(*self),
    {
        match self {
            ExtensionInit::TransferFeeConfig { .. } => ExtensionKind::TransferFeeConfig,
            ExtensionInit::MintCloseAuthority { .. } => ExtensionKind::MintCloseAuthority,
            ExtensionInit::DefaultAccountState { .. } => ExtensionKind::DefaultAccountState,
            ExtensionInit::ImmutableOwner => ExtensionKind::ImmutableOwner,
            ExtensionInit::NonTransferable => ExtensionKind::NonTransferable,
            ExtensionInit::InterestBearing { .. } => ExtensionKind::InterestBearingConfig,
            ExtensionInit::PermanentDelegate { .. } => ExtensionKind::PermanentDelegate,
            ExtensionInit::TransferHook { .. } => ExtensionKind::TransferHook,
            ExtensionInit::MetadataPointer { .. } => ExtensionKind::MetadataPointer,
            ExtensionInit::GroupPointer { .. } => ExtensionKind::GroupPointer,
            ExtensionInit::GroupMemberPointer { .. } => ExtensionKind::GroupMemberPointer,
            }
    }
}

/// One call that an instruction makes into the storage service or the ledger program,
/// in the order planned.
#[derive(Debug, Clone)]
pub enum Step {
    /// Create `account` with `space` zeroed bytes, owned by `owner`, funded by `payer`
    /// with the minimum balance of an account of `funded_length` bytes.
    CreateAccount { payer: Address, account: Address, space: u64, funded_length: u64, owner: Address },
    /// Write one extension into an account whose base state is not yet initialized.
    InitializeExtension { account: Address, init: ExtensionInit },
    /// Initialize the base state of a mint.
    InitializeMint {
        mint: Address,
        decimals: u8,
        mint_authority: Address,
        freeze_authority: Option<Address>,
    },
    /// Initialize the base state of a token account.
    InitializeAccount { account: Address, mint: Address, owner: Address },
    /// Require memos on transfers into an initialized token account.
    EnableRequiredMemos { account: Address, owner: Address },
    /// Write the metadata record of a mint whose pointer names the mint itself.
    InitializeMetadata {
        mint: Address,
        authority: Address,
        name: String,
        symbol: String,
        uri: String,
    },
    /// Write the group record into `group`.
    InitializeGroup { group: Address, mint: Address, authority: Address, max_size: u32 },
    /// Grow an initialized account so that it holds `kinds` too.
    Reallocate { account: Address, payer: Address, owner: Address, kinds: Vec<ExtensionKind> },
    /// Change the state that new accounts of a mint start in.
    UpdateDefaultAccountState { mint: Address, freeze_authority: Address, state: AccountStateKind },
    /// Set one field of a mint's metadata record.
    UpdateMetadataField { mint: Address, authority: Address, field: Field, value: String },
    /// Move `amount` between token accounts, with `fee` withheld in the destination.
    TransferCheckedWithFee {
        source: Address,
        mint: Address,
        destination: Address,
        authority: Address,
        amount: u64,
        decimals: u8,
        fee: u64,
    },
    /// Move the withheld fees of `sources` into the mint.
    HarvestWithheldToMint { mint: Address, sources: Vec<Address> },
    /// Move the withheld fees of `sources` into `destination`.
    WithdrawWithheldFromAccounts {
        mint: Address,
        destination: Address,
        authority: Address,
        sources: Vec<Address>,
    },
    /// Create the associated token account of `wallet` for `mint`, unless it exists.
    CreateAssociatedAccount {
        payer: Address,
        associated: Address,
        wallet: Address,
        mint: Address,
        token_program: Address,
    },
    /// Move `amount` tokens between token accounts.
    TransferChecked {
        source: Address,
        mint: Address,
        destination: Address,
        authority: Address,
        amount: u64,
        decimals: u8,
    },
    /// Record `text` as a memo of the transaction.
    Memo { text: String },
    /// Ask `program` to move `lamports` from `from` to `to` on the caller's behalf.
    LamportTransferVia { program: Address, from: Address, to: Address, lamports: u64 },
    /// Move the fees withheld in the mint into `destination`.
    WithdrawWithheldFromMint { mint: Address, destination: Address, authority: Address },
}

} // verus!
