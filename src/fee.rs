use vstd::prelude::*;
use spl_token_2022::extension::transfer_fee::TransferFee;
use crate::address::Address;
use crate::authority::{check_owned_by, AccountSnapshot};
use crate::error::ErrorCode;
use crate::steps::Step;

verus! {

/// Basis points in one whole.
pub const ONE_IN_BASIS_POINTS: u64 = 10_000;

/// The fee withheld on a transfer of `amount` at `basis_points`: the share rounded up,
/// at most `maximum_fee`; nothing where the rate or the amount is zero; `None` where the
/// rounded share does not fit in `u64`.
pub open spec fn fee_for(basis_points: u16, maximum_fee: u64, amount: u64) -> Option<u64> {
    if basis_points == 0 || amount == 0 {
        Some(0)
    } else {
        let raw = (amount * basis_points + ONE_IN_BASIS_POINTS - 1) / (ONE_IN_BASIS_POINTS as int);
        if raw > u64::MAX {
            None
        } else if raw <= maximum_fee {
            Some(raw as u64)
        } else {
            Some(maximum_fee)
        }
    }
}

/// Relies on spl_token_2022's `TransferFee::calculate_fee`: the fee rounded up and
/// capped at the maximum.
#[verifier::external_body]
fn ledger_fee(basis_points: u16, maximum_fee: u64, amount: u64) -> (r: Option<u64>)
    ensures
        r == fee_for(basis_points, maximum_fee, amount),
{
    let schedule = TransferFee {
        epoch: 0u64.into(),
        maximum_fee: maximum_fee.into(),
        transfer_fee_basis_points: basis_points.into(),
    };
    schedule.calculate_fee(amount)
}

/// What a transfer of `amount` under a fee schedule leaves: the fee withheld in the
/// destination and what the destination receives. `None` where the fee cannot be
/// computed or exceeds the amount.
pub fn transfer_outcome(basis_points: u16, maximum_fee: u64, amount: u64) -> (r: Option<(u64, u64)>)
    ensures
        r is Some <==> (fee_for(basis_points, maximum_fee, amount) matches Some(f) && f <= amount),
        r matches Some((fee, received)) ==> fee_for(basis_points, maximum_fee, amount) == Some(fee)
            && received == amount - fee,
{
    match ledger_fee(basis_points, maximum_fee, amount) {
        None => None,
        Some(fee) => {
            if fee <= amount {
                Some((fee, amount - fee))
            } else {
                None
            }
        },
    }
}

/// What a transfer reads of the mint: its account and its decimals.
#[derive(Debug, Clone, Copy)]
pub struct MintInfo {
    pub account: AccountSnapshot,
    pub decimals: u8,
}

/// Plans a transfer of `amount` from `source` to `destination` as `authority`, with
/// `fee` withheld; the ledger checks the fee against the mint's schedule. The mint must
/// belong to the ledger program.
pub fn transfer_to(
    mint: &MintInfo,
    ledger_program: &Address,
    source: &Address,
    destination: &Address,
    authority: &Address,
    amount: u64,
    fee: u64,
) -> (r: Result<Vec<Step>, ErrorCode>)
    ensures
        r is Ok <==> mint.account.owner@ == ledger_program@,
        r matches Err(e) ==> e == ErrorCode::InvalidAccountOwner,
        r matches Ok(steps) ==> steps@ == seq![
            Step::TransferCheckedWithFee {
                source: *source,
                mint: mint.account.key,
                destination: *destination,
                authority: *authority,
                amount,
                decimals: mint.decimals,
                fee,
            },
        ],
{
    match check_owned_by(&mint.account, ledger_program) {
        Err(e) => Err(e),
        Ok(()) => {
            let s = Step::TransferCheckedWithFee {
                source: *source,
                mint: mint.account.key,
                destination: *destination,
                authority: *authority,
                amount,
                decimals: mint.decimals,
                fee,
            };
            let mut steps: Vec<Step> = Vec::new();
            steps.push(s);
            assert(steps@ =~= seq![s]);
            Ok(steps)
        },
    }
}

} // verus!
