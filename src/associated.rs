use vstd::prelude::*;
use anchor_spl::associated_token::get_associated_token_address_with_program_id;
use spl_token_2022::solana_program::pubkey::Pubkey;
use crate::address::Address;
use crate::authority::{check_owned_by, AccountSnapshot};
use crate::error::ErrorCode;
use crate::steps::Step;

verus! {

/// The associated token account address of a wallet for a mint under a token program.
pub uninterp spec fn associated_address(wallet: Seq<u8>, mint: Seq<u8>, token_program: Seq<u8>) -> Seq<u8>;

/// Relies on spl_associated_token_account's
/// `get_associated_token_address_with_program_id`: the program address derived from the
/// wallet, the token program and the mint; a result of the three addresses alone.
#[verifier::external_body]
fn derive_associated_address(wallet: &Address, mint: &Address, token_program: &Address) -> (r: Address)
    ensures
        r@ == associated_address(wallet@, mint@, token_program@),
{
    let derived = get_associated_token_address_with_program_id(
        &Pubkey::new_from_array(wallet.bytes),
        &Pubkey::new_from_array(mint.bytes),
        &Pubkey::new_from_array(token_program.bytes),
    );
    Address { bytes: derived.to_bytes() }
}

/// Checks that the address offered for an associated token account is the derived one.
pub fn check_associated_address(given: &Address, derived: &Address) -> (r: Result<(), ErrorCode>)
    ensures
        r is Ok <==> given@ == derived@,
        r matches Err(e) ==> e == ErrorCode::InvalidATA,
{
    if given.same_as(derived) {
        Ok(())
    } else {
        Err(ErrorCode::InvalidATA)
    }
}

/// The accounts that the creation of an associated token account reads.
#[derive(Debug, Clone, Copy)]
pub struct AssociatedAccounts {
    pub mint: AccountSnapshot,
    pub payer: Address,
    pub associated: Address,
    pub wallet: Address,
    pub ledger_program: Address,
}

/// Plans the creation of `wallet`'s associated token account for the mint, unless it
/// exists. The mint must belong to the ledger program, and the offered address must be
/// the one derived from the wallet, the mint and the ledger program.
pub fn create_ata(accounts: &AssociatedAccounts) -> (r: Result<Vec<Step>, ErrorCode>)
    ensures
        accounts.mint.owner@ != accounts.ledger_program@ ==> r == Err::<Vec<Step>, ErrorCode>(
            ErrorCode::InvalidAccountOwner,
        ),
        accounts.mint.owner@ == accounts.ledger_program@ ==> (r is Ok <==> accounts.associated@
            == associated_address(accounts.wallet@, accounts.mint.key@, accounts.ledger_program@)),
        accounts.mint.owner@ == accounts.ledger_program@ ==> (r matches Err(e) ==> e
            == ErrorCode::InvalidATA),
        r matches Ok(steps) ==> steps@ == seq![
            Step::CreateAssociatedAccount {
                payer: accounts.payer,
                associated: accounts.associated,
                wallet: accounts.wallet,
                mint: accounts.mint.key,
                token_program: accounts.ledger_program,
            },
        ],
{
    match check_owned_by(&accounts.mint, &accounts.ledger_program) {
        Err(e) => {
            return Err(e);
        },
        Ok(()) => {},
    }
    let derived = derive_associated_address(&accounts.wallet, &accounts.mint.key, &accounts.ledger_program);
    match check_associated_address(&accounts.associated, &derived) {
        Err(e) => {
            return Err(e);
        },
        Ok(()) => {},
    }
    let s = Step::CreateAssociatedAccount {
        payer: accounts.payer,
        associated: accounts.associated,
        wallet: accounts.wallet,
        mint: accounts.mint.key,
        token_program: accounts.ledger_program,
    };
    let mut steps: Vec<Step> = Vec::new();
    steps.push(s);
    assert(steps@ =~= seq![s]);
    Ok(steps)
}

} // verus!
