use vstd::prelude::*;
use spl_token_2022::extension::ExtensionType;
use spl_token_2022::state::{Account, Mint};

verus! {

/// The extensions that can be attached to a mint or a token account when it is
/// created, each with a value of fixed size.
#[derive(Debug, Clone, Copy, PartialEq, Eq, Structural)]
pub enum ExtensionKind {
    TransferFeeConfig,
    TransferFeeAmount,
    MintCloseAuthority,
    ConfidentialTransferMint,
    DefaultAccountState,
    ImmutableOwner,
    MemoTransfer,
    NonTransferable,
    InterestBearingConfig,
    CpiGuard,
    PermanentDelegate,
    NonTransferableAccount,
    TransferHook,
    TransferHookAccount,
    MetadataPointer,
    GroupPointer,
    TokenGroup,
    GroupMemberPointer,
    TokenGroupMember,
}

/// The base state that the extension records follow.
#[derive(Debug, Clone, Copy, PartialEq, Eq, Structural)]
pub enum BaseKind {
    Mint,
    Account,
}

/// The two-byte type number that the ledger writes for an extension record.
pub open spec fn kind_tag(k: ExtensionKind) -> u16 {
    match k {
        ExtensionKind::TransferFeeConfig => 1,
        ExtensionKind::TransferFeeAmount => 2,
        ExtensionKind::MintCloseAuthority => 3,
        ExtensionKind::ConfidentialTransferMint => 4,
        ExtensionKind::DefaultAccountState => 6,
        ExtensionKind::ImmutableOwner => 7,
        ExtensionKind::MemoTransfer => 8,
        ExtensionKind::NonTransferable => 9,
        ExtensionKind::InterestBearingConfig => 10,
        ExtensionKind::CpiGuard => 11,
        ExtensionKind::PermanentDelegate => 12,
        ExtensionKind::NonTransferableAccount => 13,
        ExtensionKind::TransferHook => 14,
        ExtensionKind::TransferHookAccount => 15,
        ExtensionKind::MetadataPointer => 18,
        ExtensionKind::GroupPointer => 20,
        ExtensionKind::TokenGroup => 21,
        ExtensionKind::GroupMemberPointer => 22,
        ExtensionKind::TokenGroupMember => 23,
    }
}

/// The type numbers that stand for one of the extensions above.
pub open spec fn known_tag(t: u16) -> bool {
    exists|k: ExtensionKind| kind_tag(k) == t
}

/// Bytes of the value of each extension record, by type number.
pub open spec fn tag_value_len(t: u16) -> nat {
    if t == 1 {
        108
    } else if t == 2 {
        8
    } else if t == 3 || t == 12 {
        32
    } else if t == 4 {
        65
    } else if t == 6 || t == 8 || t == 11 || t == 15 {
        1
    } else if t == 10 {
        52
    } else if t == 14 || t == 18 || t == 20 || t == 22 {
        64
    } else if t == 21 {
        72
    } else if t == 23 {
        68
    } else {
        0
    }
}

/// Bytes of one extension record: a two-byte type, a two-byte length, the value.
pub open spec fn record_len(t: u16) -> nat {
    4 + tag_value_len(t)
}

/// Bytes of the records of the distinct types in `s` (a repeated type is stored once).
pub open spec fn records_len(s: Seq<u16>) -> nat
    decreases s.len(),
{
    if s.len() == 0 {
        0
    } else {
        let p = s.drop_last();
        records_len(p) + if p.contains(s.last()) {
            0nat
        } else {
            record_len(s.last())
        }
    }
}

/// Number of distinct types in `s`.
pub open spec fn distinct_count(s: Seq<u16>) -> nat
    decreases s.len(),
{
    if s.len() == 0 {
        0
    } else {
        let p = s.drop_last();
        distinct_count(p) + if p.contains(s.last()) {
            0nat
        } else {
            1nat
        }
    }
}

/// Bytes of the base state alone.
pub open spec fn base_len(b: BaseKind) -> nat {
    match b {
        BaseKind::Mint => 82,
        BaseKind::Account => 165,
    }
}

/// Length of a token account; extension records of both kinds of base start after it
/// and a one-byte account type.
pub const BASE_ACCOUNT_LEN: usize = 165;

/// Length of a multisig account, which an extended account must never equal.
pub const MULTISIG_LEN: usize = 355;

/// An extended account whose length would equal a multisig's is padded by one empty
/// type number.
pub open spec fn padded(n: nat) -> nat {
    if n == MULTISIG_LEN {
        n + 2
    } else {
        n
    }
}

/// The byte length of a base state followed by records of the types in `tags`.
pub open spec fn space_of(b: BaseKind, tags: Seq<u16>) -> nat {
    if tags.len() == 0 {
        base_len(b)
    } else {
        padded((BASE_ACCOUNT_LEN + 1 + records_len(tags)) as nat)
    }
}

/// The type numbers of a list of extensions.
pub open spec fn tags_of(kinds: Seq<ExtensionKind>) -> Seq<u16> {
    kinds.map_values(|k: ExtensionKind| kind_tag(k))
}

/// Relies on spl_token_2022's `ExtensionType::try_calculate_account_len::<Mint>`: the
/// length of a mint with one record per distinct extension type.
#[verifier::external_body]
fn ledger_mint_len(tags: &Vec<u16>) -> (r: Result<usize, u64>)
    requires
        forall|i: int| 0 <= i < tags.len() ==> known_tag(#[trigger] tags[i]),
    ensures
        r.is_ok(),
        r.unwrap() == space_of(BaseKind::Mint, tags@),
{
    let mut types = Vec::new();
    for t in tags.iter() {
        types.push(ExtensionType::try_from(&t.to_le_bytes()[..]).map_err(u64::from)?);
    }
    ExtensionType::try_calculate_account_len::<Mint>(&types).map_err(u64::from)
}

/// Relies on spl_token_2022's `ExtensionType::try_calculate_account_len::<Account>`: the
/// length of a token account with one record per distinct extension type.
#[verifier::external_body]
fn ledger_account_len(tags: &Vec<u16>) -> (r: Result<usize, u64>)
    requires
        forall|i: int| 0 <= i < tags.len() ==> known_tag(#[trigger] tags[i]),
    ensures
        r.is_ok(),
        r.unwrap() == space_of(BaseKind::Account, tags@),
{
    let mut types = Vec::new();
    for t in tags.iter() {
        types.push(ExtensionType::try_from(&t.to_le_bytes()[..]).map_err(u64::from)?);
    }
    ExtensionType::try_calculate_account_len::<Account>(&types).map_err(u64::from)
}

impl ExtensionKind {
    /// The type number of this extension.
    pub fn tag(&self) -> (r: u16)
        ensures
            r == kind_tag(*self),
    {
        match self {
            ExtensionKind::TransferFeeConfig => 1,
            ExtensionKind::TransferFeeAmount => 2,
            ExtensionKind::MintCloseAuthority => 3,
            ExtensionKind::ConfidentialTransferMint => 4,
            ExtensionKind::DefaultAccountState => 6,
            ExtensionKind::ImmutableOwner => 7,
            ExtensionKind::MemoTransfer => 8,
            ExtensionKind::NonTransferable => 9,
            ExtensionKind::InterestBearingConfig => 10,
            ExtensionKind::CpiGuard => 11,
            ExtensionKind::PermanentDelegate => 12,
            ExtensionKind::NonTransferableAccount => 13,
            ExtensionKind::TransferHook => 14,
            ExtensionKind::TransferHookAccount => 15,
            ExtensionKind::MetadataPointer => 18,
            ExtensionKind::GroupPointer => 20,
            ExtensionKind::TokenGroup => 21,
            ExtensionKind::GroupMemberPointer => 22,
            ExtensionKind::TokenGroupMember => 23,
        }
    }
}

/// The type numbers of `kinds`, in order.
pub fn extension_tags(kinds: &Vec<ExtensionKind>) -> (r: Vec<u16>)
    ensures
        r@ == tags_of(kinds@),
        forall|i: int| 0 <= i < r.len() ==> known_tag(#[trigger] r[i]),
{
    let mut r: Vec<u16> = Vec::new();
    let mut i: usize = 0;
    while i < kinds.len()
        invariant
            0 <= i <= kinds.len(),
            r@ == tags_of(kinds@.subrange(0, i as int)),
            forall|j: int| 0 <= j < r.len() ==> known_tag(#[trigger] r[j]),
        decreases kinds.len() - i,
    {
        let t = kinds[i].tag();
        r.push(t);
        proof {
            assert(kinds@.subrange(0, i + 1) =~= kinds@.subrange(0, i as int).push(kinds@[i as int]));
            assert(tags_of(kinds@.subrange(0, i + 1)) =~= tags_of(kinds@.subrange(0, i as int)).push(t));
            assert(known_tag(r@[r.len() - 1]));
        }
        i = i + 1;
    }
    assert(kinds@.subrange(0, kinds.len() as int) =~= kinds@);
    r
}

/// The exact byte length that an account of the given base needs for `kinds`.
pub fn extension_space(base: BaseKind, kinds: &Vec<ExtensionKind>) -> (r: usize)
    ensures
        r == space_of(base, tags_of(kinds@)),
{
    let tags = extension_tags(kinds);
    let len = match base {
        BaseKind::Mint => ledger_mint_len(&tags),
        BaseKind::Account => ledger_account_len(&tags),
    };
    match len {
        Ok(n) => n,
        Err(_) => 0,
    }
}

/// Whether one of `kinds` points at a record that is written after the base state is
/// initialized, so that the account is funded for twice its length.
pub open spec fn needs_headroom(kinds: Seq<ExtensionKind>) -> bool {
    kinds.contains(ExtensionKind::MetadataPointer) || kinds.contains(ExtensionKind::GroupPointer)
}

/// The length that the account is funded for: doubled where `needs_headroom`, plus a
/// metadata record of `metadata_len` value bytes where there is one.
pub open spec fn funded_of(space: nat, kinds: Seq<ExtensionKind>, metadata_len: nat) -> nat {
    (if needs_headroom(kinds) {
        2 * space
    } else {
        space
    }) + (if metadata_len > 0 {
        4 + metadata_len
    } else {
        0
    })
}

/// What an account with a given set of extensions needs: the bytes it is created with,
/// and the length its balance must keep alive.
#[derive(Debug, Clone, Copy, PartialEq, Eq, Structural)]
pub struct Layout {
    pub byte_length: usize,
    pub funded_length: usize,
}

/// Whether `kinds` holds `k`.
pub fn has_kind(kinds: &Vec<ExtensionKind>, k: ExtensionKind) -> (r: bool)
    ensures
        r == kinds@.contains(k),
{
    let mut i: usize = 0;
    while i < kinds.len()
        invariant
            0 <= i <= kinds.len(),
            forall|j: int| 0 <= j < i ==> kinds@[j] != k,
        decreases kinds.len() - i,
    {
        if kinds[i] == k {
            assert(kinds@[i as int] == k);
            return true;
        }
        i = i + 1;
    }
    false
}

/// The layout of an account of the given base with `kinds`, and with a metadata record
/// of `metadata_len` value bytes written later. `None` where the funded length does
/// not fit in `usize`.
pub fn layout_calculator(base: BaseKind, kinds: &Vec<ExtensionKind>, metadata_len: usize) -> (r:
    Option<Layout>)
    ensures
        r is Some <==> funded_of(space_of(base, tags_of(kinds@)), kinds@, metadata_len as nat)
            <= usize::MAX,
        r matches Some(l) ==> l.byte_length == space_of(base, tags_of(kinds@)) && l.funded_length
            == funded_of(space_of(base, tags_of(kinds@)), kinds@, metadata_len as nat),
{
    let space = extension_space(base, kinds);
    let headroom = has_kind(kinds, ExtensionKind::MetadataPointer) || has_kind(
        kinds,
        ExtensionKind::GroupPointer,
    );
    let funded = if headroom {
        space.checked_mul(2)
    } else {
        Some(space)
    };
    let funded = match funded {
        None => {
            return None;
        },
        Some(f) => f,
    };
    let funded = if metadata_len > 0 {
        match metadata_len.checked_add(4) {
            None => {
                return None;
            },
            Some(m) => funded.checked_add(m),
        }
    } else {
        Some(funded)
    };
    match funded {
        None => None,
        Some(f) => Some(Layout { byte_length: space, funded_length: f }),
    }
}

/// `records_len` counts at least the four header bytes of each distinct type.
pub proof fn lemma_records_cover_headers(s: Seq<u16>)
    ensures
        records_len(s) >= 4 * distinct_count(s),
    decreases s.len(),
{
    if s.len() > 0 {
        lemma_records_cover_headers(s.drop_last());
    }
}

/// The length computed for any set of extensions is at least the base state's length
/// plus the type and length header of every distinct extension in it.
pub proof fn lemma_space_covers_headers(base: BaseKind, kinds: Seq<ExtensionKind>)
    ensures
        space_of(base, tags_of(kinds)) >= base_len(base) + 4 * distinct_count(tags_of(kinds)),
{
    lemma_records_cover_headers(tags_of(kinds));
}

/// Adding one more extension to a set never makes the computed length shorter.
pub proof fn lemma_space_grows_with_extension(
    base: BaseKind,
    kinds: Seq<ExtensionKind>,
    k: ExtensionKind,
)
    ensures
        space_of(base, tags_of(kinds.push(k))) >= space_of(base, tags_of(kinds)),
{
    let before = tags_of(kinds);
    let after = tags_of(kinds.push(k));
    assert(after =~= before.push(kind_tag(k)));
    assert(after.drop_last() =~= before);
}

} // verus!
