use fee_contracts::wallet::{WalletEvent, WalletLinkingContract};

const ALICE: u64 = 10;
const BOB: u64 = 11;
const W1: u64 = 100;
const W2: u64 = 101;
const W3: u64 = 102;

#[test]
fn link_records_owner_and_list() {
    let mut registry = WalletLinkingContract::new();
    registry.link_wallet(ALICE, W1);
    registry.link_wallet(ALICE, W2);
    registry.link_wallet(BOB, W3);
    assert_eq!(registry.get_wallets(ALICE), vec![W1, W2]);
    assert_eq!(registry.get_wallets(BOB), vec![W3]);
    assert_eq!(registry.get_wallet_owner(W2), Some(ALICE));
    assert_eq!(registry.get_wallet_owner(999), None);
    assert_eq!(registry.events.last(), Some(&WalletEvent::WalletLinked { user: BOB, wallet: W3 }));
}

#[test]
fn unlink_undoes_link() {
    let mut registry = WalletLinkingContract::new();
    registry.link_wallet(ALICE, W1);
    registry.link_wallet(ALICE, W2);
    registry.unlink_wallet(ALICE, W1);
    assert_eq!(registry.get_wallets(ALICE), vec![W2]);
    assert_eq!(registry.get_wallet_owner(W1), None);
    assert_eq!(registry.events.last(), Some(&WalletEvent::WalletUnlinked { user: ALICE, wallet: W1 }));
    // The wallet can be linked again, to someone else.
    registry.link_wallet(BOB, W1);
    assert_eq!(registry.get_wallet_owner(W1), Some(BOB));
}

#[test]
fn unknown_user_has_no_wallets() {
    let registry = WalletLinkingContract::new();
    assert!(registry.get_wallets(ALICE).is_empty());
}
