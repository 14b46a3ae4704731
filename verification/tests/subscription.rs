// Unit tests of the whole callable surface, driven through the library's
// explicit ledger inputs: the caller, the attached amount and the height
// are plain arguments here.

use creator_direct::contract::CreatorDirect;
use creator_direct::types::{AccountId, Error};

fn acct(n: u128) -> AccountId {
    AccountId { hi: 0, lo: n }
}

fn alice() -> AccountId {
    acct(1)
}

fn bob() -> AccountId {
    acct(2)
}

fn new_contract(price: u128, period: u32) -> CreatorDirect {
    CreatorDirect::new(alice(), price, period, String::from("Demo"), String::from("Desc"))
}

#[test]
fn new_works() {
    let price = 1000u128;
    let period = 10u32;
    let contract = new_contract(price, period);
    let params = contract.get_params();
    assert_eq!(params.0, price);
    assert_eq!(params.1, period);
}

#[test]
fn subscribe_extends() {
    let mut contract = new_contract(100, 5);
    // 200 buys 2 periods.
    let _ = contract.subscribe(alice(), 200u128, 0).expect("subscribe ok");
    assert!(contract.is_active(alice(), 0));
}

#[test]
fn subscribe_insufficient_funds() {
    let mut contract = new_contract(100, 5);
    // Transfer less than the required price.
    let result = contract.subscribe(alice(), 50u128, 0);
    assert!(result.is_err());
    assert_eq!(result.unwrap_err(), Error::InsufficientFunds);
}

#[test]
fn subscription_expiry_check() {
    let mut contract = new_contract(100, 5);
    // Subscribe for 1 period.
    let _ = contract.subscribe(alice(), 100u128, 0).expect("subscribe ok");
    // Active right away.
    assert!(contract.is_active(alice(), 0));
    // Inactive once the height has advanced beyond the expiry.
    assert!(!contract.is_active(alice(), 0 + 1 + 5 + 1));
}

#[test]
fn only_creator_can_withdraw() {
    let mut contract = new_contract(100, 5);
    let _ = contract.subscribe(alice(), 100u128, 0).expect("subscribe ok");
    // Bob (non-creator) tries to withdraw the held balance.
    let result = contract.withdraw(bob(), 100u128);
    assert!(result.is_err());
    assert_eq!(result.unwrap_err(), Error::Unauthorized);
}

#[test]
fn only_creator_can_update_params() {
    let mut contract = new_contract(100, 5);
    let result = contract.update_params(bob(), 200u128, 10u32);
    assert!(result.is_err());
    assert_eq!(result.unwrap_err(), Error::Unauthorized);
}

#[test]
fn subscription_renewal_extends_from_expiry() {
    let mut contract = new_contract(100, 5);
    let result1 = contract.subscribe(alice(), 100u128, 0).expect("subscribe ok");
    let first_expiry = result1.1;
    // Second subscription before expiry.
    let result2 = contract.subscribe(alice(), 100u128, 0).expect("subscribe ok");
    let second_expiry = result2.1;
    // The second expiry lies one period beyond the first.
    assert_eq!(second_expiry, first_expiry + 5);
}

#[test]
fn subscription_with_zero_price_fails() {
    let mut contract = new_contract(0, 5);
    let result = contract.subscribe(alice(), 100u128, 0);
    assert!(result.is_err());
    assert_eq!(result.unwrap_err(), Error::TierNotConfigured);
}

#[test]
fn get_subscription_info_works() {
    let mut contract = new_contract(100, 5);
    // Before any subscription.
    let (is_active, expiry, _, has_pass) = contract.get_subscription_info(alice(), 0);
    assert!(!is_active);
    assert_eq!(expiry, 0);
    assert!(!has_pass);
    // Subscribe.
    let _ = contract.subscribe(alice(), 100u128, 0).expect("subscribe ok");
    // After the subscription.
    let (is_active, _, _, has_pass) = contract.get_subscription_info(alice(), 0);
    assert!(is_active);
    assert!(has_pass);
}

#[test]
fn multiple_periods_subscription() {
    let mut contract = new_contract(100, 5);
    // 300 buys 3 periods.
    let result = contract.subscribe(alice(), 300u128, 0).expect("subscribe ok");
    let (periods, _) = result;
    assert_eq!(periods, 3);
}

#[test]
fn creator_can_update_params() {
    let mut contract = new_contract(100, 5);
    let result = contract.update_params(alice(), 200u128, 10u32);
    assert!(result.is_ok());
    let params = contract.get_params();
    assert_eq!(params.0, 200u128);
    assert_eq!(params.1, 10u32);
}

#[test]
fn multi_tier_subscription_works() {
    let mut contract = new_contract(100, 5);
    // Silver (tier 1) costs twice the base price.
    let result = contract.subscribe_with_tier(alice(), 200u128, 0, 1);
    assert!(result.is_ok());
    assert_eq!(contract.get_subscriber_tier(alice()), 1);
    assert!(contract.is_active(alice(), 0));
}

#[test]
fn gift_subscription_works() {
    let mut contract = new_contract(100, 5);
    // Alice gifts a subscription to Bob.
    let result = contract.gift_subscription(alice(), bob(), 100u128, 0, 0);
    assert!(result.is_ok());
    assert!(contract.is_active(bob(), 0));
}

#[test]
fn auto_renewal_toggle_works() {
    let mut contract = new_contract(100, 5);
    let result = contract.toggle_auto_renewal(alice(), true);
    assert!(result.is_ok());
    assert!(contract.is_auto_renewal_enabled(alice()));
    let result = contract.toggle_auto_renewal(alice(), false);
    assert!(result.is_ok());
    assert!(!contract.is_auto_renewal_enabled(alice()));
}

#[test]
fn nft_minting_on_first_subscription() {
    let mut contract = new_contract(100, 5);
    let _ = contract.subscribe(alice(), 100u128, 0).expect("subscribe ok");
    assert!(contract.get_nft_token(alice()).is_some());
    assert_eq!(contract.get_nft_token(alice()).unwrap(), 1);
}

#[test]
fn analytics_tracking_works() {
    let mut contract = new_contract(100, 5);
    let _ = contract.subscribe(alice(), 100u128, 0).expect("subscribe ok");
    let _ = contract.subscribe(bob(), 100u128, 0).expect("subscribe ok");
    let (total_subs, total_rev, active_count) = contract.get_analytics(0);
    assert_eq!(total_subs, 2);
    assert_eq!(total_rev, 200u128);
    assert_eq!(active_count, 2);
}

#[test]
fn tier_prices_can_be_updated() {
    let mut contract = new_contract(100, 5);
    let result = contract.update_tier_price(alice(), 2, 500u128);
    assert!(result.is_ok());
    assert_eq!(contract.get_tier_price(2), 500u128);
}

#[test]
fn get_all_tier_prices_works() {
    let contract = new_contract(100, 5);
    let (bronze, silver, gold) = contract.get_all_tier_prices();
    assert_eq!(bronze, 100u128);
    assert_eq!(silver, 200u128);
    assert_eq!(gold, 300u128);
}
