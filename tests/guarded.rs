use token_extension::address::Address;
use token_extension::guarded::{memo_transfer, transfer_token, TransferAccounts, PROBE_LAMPORTS};
use token_extension::steps::Step;

fn accounts() -> TransferAccounts {
    TransferAccounts {
        mint: Address::new([1; 32]),
        source: Address::new([2; 32]),
        destination: Address::new([3; 32]),
        authority: Address::new([4; 32]),
    }
}

#[test]
fn memo_precedes_transfer() {
    let steps = memo_transfer(&accounts(), 500, 2);
    match &steps[0] {
        Step::Memo { text } => assert_eq!(text, "Testing memo string"),
        other => panic!("unexpected {:?}", other),
    }
    assert!(matches!(steps[1], Step::TransferChecked { amount: 500, decimals: 2, .. }));
}

#[test]
fn guarded_transfer_tries_lamports_first() {
    let steps = transfer_token(&accounts(), &Address::new([7; 32]), &Address::new([8; 32]), 10, 2);
    assert_eq!(PROBE_LAMPORTS, 1_100_000_000);
    match &steps[0] {
        Step::LamportTransferVia { program, from, to, lamports } => {
            assert_eq!(program.bytes, [7; 32]);
            assert_eq!(from.bytes, [4; 32]);
            assert_eq!(to.bytes, [8; 32]);
            assert_eq!(*lamports, 1_100_000_000);
        }
        other => panic!("unexpected {:?}", other),
    }
    assert!(matches!(steps[1], Step::TransferChecked { amount: 10, .. }));
}
