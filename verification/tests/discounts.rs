use fee_contracts::discount::{
    get_active_discount, remove_discount, store_discount, DiscountBook, DiscountEvent,
};

const USER: u64 = 3;

#[test]
fn discount_applies_until_expiry_inclusive() {
    let mut book = DiscountBook::new();
    store_discount(&mut book, USER, 500, 1_000);
    assert_eq!(get_active_discount(&mut book, 999, USER), Some(500));
    assert_eq!(get_active_discount(&mut book, 1_000, USER), Some(500));
    assert_eq!(get_active_discount(&mut book, 1_001, USER), None);
    assert_eq!(
        book.events.last(),
        Some(&DiscountEvent::DiscountExpired { user: USER, discount_bps: 500, expires_at: 1_000 })
    );
}

#[test]
fn missing_or_removed_discount_is_none() {
    let mut book = DiscountBook::new();
    assert_eq!(get_active_discount(&mut book, 0, USER), None);
    assert!(book.events.is_empty());
    store_discount(&mut book, USER, 100, 50);
    remove_discount(&mut book, USER);
    assert_eq!(get_active_discount(&mut book, 0, USER), None);
    assert_eq!(book.events.last(), Some(&DiscountEvent::DiscountRemoved { user: USER }));
}

#[test]
fn storing_again_replaces_discount() {
    let mut book = DiscountBook::new();
    store_discount(&mut book, USER, 100, 50);
    store_discount(&mut book, USER, 300, 80);
    assert_eq!(get_active_discount(&mut book, 60, USER), Some(300));
}
