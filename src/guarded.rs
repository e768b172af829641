use vstd::prelude::*;
use crate::address::Address;
use crate::steps::Step;

verus! {

/// Lamports that a guarded transfer tries to move out of the authority's wallet first:
/// 1.1 SOL.
pub const PROBE_LAMPORTS: u64 = 1_100_000_000;

/// The text of the memo that precedes a transfer into a memo-requiring account.
pub open spec fn memo_text() -> Seq<char> {
    seq!['T', 'e', 's', 't', 'i', 'n', 'g', ' ', 'm', 'e', 'm', 'o', ' ', 's', 't', 'r', 'i', 'n', 'g']
}

/// The accounts of a token transfer.
#[derive(Debug, Clone, Copy)]
pub struct TransferAccounts {
    pub mint: Address,
    pub source: Address,
    pub destination: Address,
    pub authority: Address,
}

/// The step that moves `amount` tokens.
pub open spec fn transfer_step(t: TransferAccounts, amount: u64, decimals: u8) -> Step {
    Step::TransferChecked {
        source: t.source,
        mint: t.mint,
        destination: t.destination,
        authority: t.authority,
        amount,
        decimals,
    }
}

/// Plans a transfer into an account that requires memos: the memo first, then the
/// tokens.
pub fn memo_transfer(t: &TransferAccounts, amount: u64, decimals: u8) -> (r: Vec<Step>)
    ensures
        r@.len() == 2,
        r@[0] matches Step::Memo { text } && text@ == memo_text(),
        r@[1] == transfer_step(*t, amount, decimals),
{
    let text = String::from_str("Testing memo string");
    proof {
        reveal_strlit("Testing memo string");
        assert(text@ =~= memo_text());
    }
    let mut r: Vec<Step> = Vec::new();
    r.push(Step::Memo { text });
    r.push(
        Step::TransferChecked {
            source: t.source,
            mint: t.mint,
            destination: t.destination,
            authority: t.authority,
            amount,
            decimals,
        },
    );
    r
}

/// Plans a transfer that first asks `program` to move `PROBE_LAMPORTS` out of the
/// authority's wallet to `wallet`, then moves the tokens. Where the source account
/// guards against calls made on its owner's behalf, the ledger refuses the transfer.
pub fn transfer_token(
    t: &TransferAccounts,
    program: &Address,
    wallet: &Address,
    amount: u64,
    decimals: u8,
) -> (r: Vec<Step>)
    ensures
        r@ == seq![
            Step::LamportTransferVia {
                program: *program,
                from: t.authority,
                to: *wallet,
                lamports: PROBE_LAMPORTS,
            },
            transfer_step(*t, amount, decimals),
        ],
{
    let mut r: Vec<Step> = Vec::new();
    r.push(
        Step::LamportTransferVia {
            program: *program,
            from: t.authority,
            to: *wallet,
            lamports: PROBE_LAMPORTS,
        },
    );
    r.push(
        Step::TransferChecked {
            source: t.source,
            mint: t.mint,
            destination: t.destination,
            authority: t.authority,
            amount,
            decimals,
        },
    );
    assert(r@ =~= seq![
        Step::LamportTransferVia {
            program: *program,
            from: t.authority,
            to: *wallet,
            lamports: PROBE_LAMPORTS,
        },
        transfer_step(*t, amount, decimals),
    ]);
    r
}

} // verus!
