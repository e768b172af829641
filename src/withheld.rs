use vstd::prelude::*;
use spl_token_2022::extension::transfer_fee::TransferFeeAmount;
use spl_token_2022::extension::{BaseStateWithExtensions, StateWithExtensions};
use spl_token_2022::state::Account;
use crate::address::Address;
use crate::authority::{check_owned_by, AccountSnapshot};
use crate::error::{ErrorCode, Failure};
use crate::steps::Step;

verus! {

/// Most candidate accounts that one harvest or withdrawal reads.
pub const MAX_SOURCES: usize = 5;

/// The withheld amount that the ledger's token-account format records in `data`, or
/// `None` where `data` is not an initialized token account with a withheld-fee record.
pub uninterp spec fn withheld_in(data: Seq<u8>) -> Option<u64>;

/// Relies on spl_token_2022's `StateWithExtensions::<Account>::unpack` and
/// `get_extension::<TransferFeeAmount>`: decodes a token account and reads the amount
/// withheld in it; a result of the bytes alone.
#[verifier::external_body]
fn read_withheld_amount(data: &[u8]) -> (r: Result<u64, u64>)
    ensures
        r.is_ok() <==> withheld_in(data@) is Some,
        r.is_ok() ==> withheld_in(data@) == Some(r.unwrap()),
{
    let state = StateWithExtensions::<Account>::unpack(data).map_err(u64::from)?;
    let fee = state.get_extension::<TransferFeeAmount>().map_err(u64::from)?;
    Ok(u64::from(fee.withheld_amount))
}

/// An account that a caller offers as a source of withheld fees.
#[derive(Debug, Clone)]
pub struct Candidate {
    pub key: Address,
    pub owner: Address,
    pub data: Vec<u8>,
}

/// A candidate with its withheld amount read.
#[derive(Debug, Clone, Copy)]
pub struct SourceView {
    pub key: Address,
    pub owner: Address,
    pub withheld: u64,
}

/// Whether a candidate is kept: it belongs to the ledger program and holds fees.
pub open spec fn qualifies(v: SourceView, ledger_program: Seq<u8>) -> bool {
    v.owner@ == ledger_program && v.withheld != 0
}

/// The keys of the views that qualify, in order.
pub open spec fn kept_keys(views: Seq<SourceView>, ledger_program: Seq<u8>) -> Seq<Address>
    decreases views.len(),
{
    if views.len() == 0 {
        Seq::empty()
    } else {
        let prev = kept_keys(views.drop_last(), ledger_program);
        if qualifies(views.last(), ledger_program) {
            prev.push(views.last().key)
        } else {
            prev
        }
    }
}

/// Whether every candidate's bytes decode.
pub open spec fn all_decode(cands: Seq<Candidate>) -> bool {
    forall|i: int| 0 <= i < cands.len() ==> (withheld_in(#[trigger] cands[i].data@) is Some)
}

/// The view of a candidate whose bytes decode.
pub open spec fn view_of(c: Candidate) -> SourceView {
    SourceView { key: c.key, owner: c.owner, withheld: withheld_in(c.data@)->Some_0 }
}

/// The views of candidates whose bytes decode.
pub open spec fn views_of(cands: Seq<Candidate>) -> Seq<SourceView> {
    cands.map_values(|c: Candidate| view_of(c))
}

/// Whether a number of candidates is one that a harvest or withdrawal accepts.
pub open spec fn count_accepted(n: nat) -> bool {
    1 <= n <= MAX_SOURCES
}

/// The keys of the views that belong to the ledger program and hold fees; the others
/// are left out without error.
pub fn select_sources(views: &Vec<SourceView>, ledger_program: &Address) -> (r: Vec<Address>)
    ensures
        r@ == kept_keys(views@, ledger_program@),
{
    let mut r: Vec<Address> = Vec::new();
    let mut i: usize = 0;
    while i < views.len()
        invariant
            0 <= i <= views.len(),
            r@ == kept_keys(views@.subrange(0, i as int), ledger_program@),
        decreases views.len() - i,
    {
        let v = views[i];
        proof {
            let next = views@.subrange(0, i + 1);
            assert(next.drop_last() =~= views@.subrange(0, i as int));
            assert(next.last() == v);
        }
        if v.owner.same_as(ledger_program) && v.withheld != 0 {
            r.push(v.key);
        }
        i = i + 1;
    }
    assert(views@.subrange(0, views.len() as int) =~= views@);
    r
}

/// Reads the withheld amount of each candidate. Fails on the first whose bytes do not
/// decode, with the ledger's code.
pub fn read_sources(cands: &Vec<Candidate>) -> (r: Result<Vec<SourceView>, u64>)
    ensures
        r is Ok <==> all_decode(cands@),
        r matches Ok(views) ==> views@ == views_of(cands@),
{
    let mut views: Vec<SourceView> = Vec::new();
    let mut i: usize = 0;
    while i < cands.len()
        invariant
            0 <= i <= cands.len(),
            views@ == views_of(cands@.subrange(0, i as int)),
            all_decode(cands@.subrange(0, i as int)),
        decreases cands.len() - i,
    {
        let c = &cands[i];
        match read_withheld_amount(c.data.as_slice()) {
            Err(code) => {
                proof {
                    assert(withheld_in(cands@[i as int].data@) is None);
                }
                return Err(code);
            },
            Ok(w) => {
                views.push(SourceView { key: c.key, owner: c.owner, withheld: w });
                proof {
                    assert(cands@.subrange(0, i + 1) =~= cands@.subrange(0, i as int).push(
                        cands@[i as int],
                    ));
                    assert(views@ =~= views_of(cands@.subrange(0, i + 1)));
                    assert forall|j: int| 0 <= j < i + 1 implies (withheld_in(
                        #[trigger] cands@.subrange(0, i + 1)[j].data@,
                    ) is Some) by {
                        if j < i {
                            assert(cands@.subrange(0, i + 1)[j] == cands@.subrange(0, i as int)[j]);
                        }
                    }
                }
            },
        }
        i = i + 1;
    }
    assert(cands@.subrange(0, cands.len() as int) =~= cands@);
    Ok(views)
}

/// The keys of the candidates that withheld fees are moved out of: between one and
/// `MAX_SOURCES` candidates must be offered, each must decode as a token account with
/// a withheld-fee record, and those that belong to the ledger program and hold fees are
/// kept, in order.
pub fn filter_sources_account_info(cands: &Vec<Candidate>, ledger_program: &Address) -> (r: Result<
    Vec<Address>,
    Failure,
>)
    ensures
        !count_accepted(cands@.len()) ==> r == Err::<Vec<Address>, Failure>(
            Failure::Program(ErrorCode::InvalidRemainingAccounts),
        ),
        count_accepted(cands@.len()) ==> (r is Ok <==> all_decode(cands@)),
        count_accepted(cands@.len()) && !all_decode(cands@) ==> r matches Err(Failure::Ledger(_)),
        r matches Ok(keys) ==> keys@ == kept_keys(views_of(cands@), ledger_program@),
{
    if cands.len() == 0 || cands.len() > MAX_SOURCES {
        return Err(Failure::Program(ErrorCode::InvalidRemainingAccounts));
    }
    match read_sources(cands) {
        Err(code) => Err(Failure::Ledger(code)),
        Ok(views) => Ok(select_sources(&views, ledger_program)),
    }
}

/// A key is kept exactly when some view with that key qualifies; every kept key comes
/// from a qualifying view, and every qualifying view's key is kept.
pub proof fn lemma_kept_exactly(views: Seq<SourceView>, ledger_program: Seq<u8>)
    ensures
        forall|a: Address| #[trigger]
            kept_keys(views, ledger_program).contains(a) <==> exists|i: int|
                0 <= i < views.len() && #[trigger] views[i].key == a && qualifies(
                    views[i],
                    ledger_program,
                ),
        kept_keys(views, ledger_program).len() <= views.len(),
    decreases views.len(),
{
    if views.len() > 0 {
        let p = views.drop_last();
        lemma_kept_exactly(p, ledger_program);
        let prev = kept_keys(p, ledger_program);
        assert forall|a: Address| #[trigger]
            kept_keys(views, ledger_program).contains(a) <==> exists|i: int|
                0 <= i < views.len() && #[trigger] views[i].key == a && qualifies(
                    views[i],
                    ledger_program,
                ) by {
            if kept_keys(views, ledger_program).contains(a) {
                if prev.contains(a) {
                    let i = choose|i: int|
                        0 <= i < p.len() && #[trigger] p[i].key == a && qualifies(p[i], ledger_program);
                    assert(views[i] == p[i]);
                } else {
                    let k = choose|k: int| 0 <= k < kept_keys(views, ledger_program).len() && kept_keys(views, ledger_program)[k] == a;
                    assert(views[views.len() - 1].key == a);
                }
            }
            if exists|i: int|
                0 <= i < views.len() && #[trigger] views[i].key == a && qualifies(
                    views[i],
                    ledger_program,
                ) {
                let i = choose|i: int|
                    0 <= i < views.len() && #[trigger] views[i].key == a && qualifies(
                        views[i],
                        ledger_program,
                    );
                if i < views.len() - 1 {
                    assert(p[i] == views[i]);
                    assert(prev.contains(a));
                    let k = choose|k: int| 0 <= k < prev.len() && prev[k] == a;
                    if qualifies(views.last(), ledger_program) {
                        assert(prev.push(views.last().key)[k] == a);
                    }
                } else {
                    assert(kept_keys(views, ledger_program) == prev.push(a));
                    assert(prev.push(a)[prev.len() as int] == a);
                }
            }
        }
    }
}

/// The accounts that a harvest of withheld fees into a mint reads and writes.
pub struct HarvestAccounts {
    pub mint: AccountSnapshot,
    pub ledger_program: Address,
}

/// Plans moving the fees withheld in the candidates into the mint. The mint must
/// belong to the ledger program; the candidates are filtered as in
/// `filter_sources_account_info`.
pub fn harvest_withheld_token(accounts: &HarvestAccounts, cands: &Vec<Candidate>) -> (r: Result<
    Vec<Step>,
    Failure,
>)
    ensures
        accounts.mint.owner@ != accounts.ledger_program@ ==> r == Err::<Vec<Step>, Failure>(
            Failure::Program(ErrorCode::InvalidAccountOwner),
        ),
        accounts.mint.owner@ == accounts.ledger_program@ && !count_accepted(cands@.len()) ==> r
            == Err::<Vec<Step>, Failure>(Failure::Program(ErrorCode::InvalidRemainingAccounts)),
        accounts.mint.owner@ == accounts.ledger_program@ && count_accepted(cands@.len()) ==> (r is Ok
            <==> all_decode(cands@)),
        r matches Ok(steps) ==> steps@.len() == 1 && (steps@[0] matches Step::HarvestWithheldToMint {
            mint,
            sources,
        } && mint == accounts.mint.key && sources@ == kept_keys(
            views_of(cands@),
            accounts.ledger_program@,
        )),
{
    match check_owned_by(&accounts.mint, &accounts.ledger_program) {
        Err(e) => {
            return Err(Failure::Program(e));
        },
        Ok(()) => {},
    }
    let sources = match filter_sources_account_info(cands, &accounts.ledger_program) {
        Err(f) => {
            return Err(f);
        },
        Ok(s) => s,
    };
    let mut steps: Vec<Step> = Vec::new();
    steps.push(Step::HarvestWithheldToMint { mint: accounts.mint.key, sources });
    Ok(steps)
}

/// The accounts that a withdrawal of withheld fees reads: the mint, the account that
/// receives the fees, the authority that may withdraw them, and the ledger program.
pub struct WithdrawAccounts {
    pub mint: AccountSnapshot,
    pub destination: Address,
    pub authority: Address,
    pub ledger_program: Address,
}

/// Plans moving the fees withheld in the candidates into `accounts.destination`. The
/// mint must belong to the ledger program; the candidates are filtered as in
/// `filter_sources_account_info`.
pub fn withdraw_withheld_account(accounts: &WithdrawAccounts, cands: &Vec<Candidate>) -> (r: Result<
    Vec<Step>,
    Failure,
>)
    ensures
        accounts.mint.owner@ != accounts.ledger_program@ ==> r == Err::<Vec<Step>, Failure>(
            Failure::Program(ErrorCode::InvalidAccountOwner),
        ),
        accounts.mint.owner@ == accounts.ledger_program@ && !count_accepted(cands@.len()) ==> r
            == Err::<Vec<Step>, Failure>(Failure::Program(ErrorCode::InvalidRemainingAccounts)),
        accounts.mint.owner@ == accounts.ledger_program@ && count_accepted(cands@.len()) ==> (r is Ok
            <==> all_decode(cands@)),
        r matches Ok(steps) ==> steps@.len() == 1 && (steps@[0] matches Step::WithdrawWithheldFromAccounts {
            mint,
            destination,
            authority,
            sources,
        } && mint == accounts.mint.key && destination == accounts.destination && authority
            == accounts.authority && sources@ == kept_keys(views_of(cands@), accounts.ledger_program@)),
{
    match check_owned_by(&accounts.mint, &accounts.ledger_program) {
        Err(e) => {
            return Err(Failure::Program(e));
        },
        Ok(()) => {},
    }
    let sources = match filter_sources_account_info(cands, &accounts.ledger_program) {
        Err(f) => {
            return Err(f);
        },
        Ok(s) => s,
    };
    let mut steps: Vec<Step> = Vec::new();
    steps.push(
        Step::WithdrawWithheldFromAccounts {
            mint: accounts.mint.key,
            destination: accounts.destination,
            authority: accounts.authority,
            sources,
        },
    );
    Ok(steps)
}

/// Plans moving the fees withheld in the mint into `accounts.destination`. The mint
/// must belong to the ledger program.
pub fn withdraw_withheld_mint(accounts: &WithdrawAccounts) -> (r: Result<Vec<Step>, ErrorCode>)
    ensures
        r is Ok <==> accounts.mint.owner@ == accounts.ledger_program@,
        r matches Err(e) ==> e == ErrorCode::InvalidAccountOwner,
        r matches Ok(steps) ==> steps@ == seq![
            Step::WithdrawWithheldFromMint {
                mint: accounts.mint.key,
                destination: accounts.destination,
                authority: accounts.authority,
            },
        ],
{
    match check_owned_by(&accounts.mint, &accounts.ledger_program) {
        Err(e) => Err(e),
        Ok(()) => {
            let s = Step::WithdrawWithheldFromMint {
                mint: accounts.mint.key,
                destination: accounts.destination,
                authority: accounts.authority,
            };
            let mut steps: Vec<Step> = Vec::new();
            steps.push(s);
            assert(steps@ =~= seq![s]);
            Ok(steps)
        },
    }
}

} // verus!
