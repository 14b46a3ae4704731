// Concrete instances of the engine's stated properties: renewal
// arithmetic, token order, analytics, clamping, and each error on an
// input that draws it.

use creator_direct::contract::CreatorDirect;
use creator_direct::record::SubscriberRecord;
use creator_direct::types::{AccountId, Error, SubscriptionTier};

fn acct(n: u128) -> AccountId {
    AccountId { hi: 0, lo: n }
}

fn new_contract(price: u128, period: u32) -> CreatorDirect {
    CreatorDirect::new(acct(1), price, period, String::from("Demo"), String::from("Desc"))
}

#[test]
fn initial_tier_prices_scale_with_tier() {
    let contract = new_contract(100, 5);
    assert_eq!(contract.get_tier_price(0), 100);
    assert_eq!(contract.get_tier_price(1), 200);
    assert_eq!(contract.get_tier_price(2), 300);
    // A tier outside {0, 1, 2} has no slot.
    assert_eq!(contract.get_tier_price(3), 0);
}

#[test]
fn tier_enum_indices_match_the_pricing_table() {
    assert_eq!(SubscriptionTier::Bronze.index(), 0);
    assert_eq!(SubscriptionTier::Silver.index(), 1);
    assert_eq!(SubscriptionTier::Gold.index(), 2);
}

#[test]
fn exact_multiple_buys_exactly_k_periods() {
    let mut contract = new_contract(100, 5);
    // 3 x price at height 0: 3 periods, expiry 15.
    assert_eq!(contract.subscribe(acct(1), 300u128, 0), Ok((3, 15)));
}

#[test]
fn renewal_before_expiry_extends_from_prior_expiry() {
    let mut contract = new_contract(100, 5);
    assert_eq!(contract.subscribe(acct(1), 100u128, 0), Ok((1, 5)));
    // Renewing at height 2, still active: extends to 10, not 7.
    assert_eq!(contract.subscribe(acct(1), 100u128, 2), Ok((1, 10)));
}

#[test]
fn renewal_after_expiry_starts_from_now() {
    let mut contract = new_contract(100, 5);
    assert_eq!(contract.subscribe(acct(1), 100u128, 0), Ok((1, 5)));
    // Renewing at height 10, already lapsed: runs to 15, not 10.
    assert_eq!(contract.subscribe(acct(1), 100u128, 10), Ok((1, 15)));
}

#[test]
fn remainder_beyond_whole_periods_is_kept_as_revenue() {
    let mut contract = new_contract(100, 5);
    // 250 buys 2 whole periods; the 50 remainder is not refunded.
    assert_eq!(contract.subscribe(acct(1), 250u128, 0), Ok((2, 10)));
    let (_, total_rev, _) = contract.get_analytics(0);
    assert_eq!(total_rev, 250u128);
}

#[test]
fn token_ids_follow_acquisition_order() {
    let mut contract = new_contract(100, 5);
    // First distinct subscriber takes token 1, whatever the tier.
    let _ = contract.subscribe_with_tier(acct(1), 200u128, 0, 1).expect("subscribe ok");
    // Second distinct subscriber takes token 2.
    let _ = contract.subscribe(acct(2), 100u128, 0).expect("subscribe ok");
    assert_eq!(contract.get_nft_token(acct(1)), Some(1));
    assert_eq!(contract.get_nft_token(acct(2)), Some(2));
    // Re-subscribing reassigns nothing and counts nobody twice.
    let _ = contract.subscribe(acct(1), 100u128, 0).expect("subscribe ok");
    assert_eq!(contract.get_nft_token(acct(1)), Some(1));
    let (total_subs, _, _) = contract.get_analytics(0);
    assert_eq!(total_subs, 2);
}

#[test]
fn gift_issues_the_token_to_the_recipient() {
    let mut contract = new_contract(100, 5);
    let _ = contract.gift_subscription(acct(1), acct(2), 100u128, 0, 0).expect("gift ok");
    // The payer gains no record of their own.
    assert_eq!(contract.get_nft_token(acct(1)), None);
    assert_eq!(contract.get_nft_token(acct(2)), Some(1));
    let (total_subs, _, _) = contract.get_analytics(0);
    assert_eq!(total_subs, 1);
}

#[test]
fn analytics_scenario_two_subscribers() {
    let mut contract = new_contract(100, 5);
    assert_eq!(contract.subscribe(acct(1), 300u128, 0), Ok((3, 15)));
    assert_eq!(contract.subscribe(acct(2), 100u128, 0), Ok((1, 5)));
    assert_eq!(contract.get_analytics(0), (2, 400u128, 2));
}

#[test]
fn active_count_falls_as_height_passes_expiries() {
    let mut contract = new_contract(100, 5);
    let _ = contract.subscribe(acct(1), 300u128, 0).expect("subscribe ok");  // expiry 15
    let _ = contract.subscribe(acct(2), 100u128, 0).expect("subscribe ok");  // expiry 5
    // No write in between: the count falls purely with the height.
    assert_eq!(contract.get_analytics(4).2, 2);
    assert_eq!(contract.get_analytics(5).2, 1);
    assert_eq!(contract.get_analytics(15).2, 0);
}

#[test]
fn invalid_tier_is_rejected_everywhere() {
    let mut contract = new_contract(100, 5);
    assert_eq!(contract.subscribe_with_tier(acct(1), 100u128, 0, 3), Err(Error::InvalidTier));
    assert_eq!(contract.update_tier_price(acct(1), 3, 500u128), Err(Error::InvalidTier));
    // The failed calls left no trace.
    assert_eq!(contract.get_analytics(0), (0, 0u128, 0));
}

#[test]
fn failed_subscription_leaves_state_unchanged() {
    let mut contract = new_contract(100, 5);
    let result = contract.subscribe(acct(1), 99u128, 0);
    assert_eq!(result, Err(Error::InsufficientFunds));
    assert!(!contract.is_active(acct(1), 0));
    assert_eq!(contract.get_nft_token(acct(1)), None);
    assert_eq!(contract.get_analytics(0), (0, 0u128, 0));
}

#[test]
fn updated_tier_price_governs_later_subscriptions() {
    let mut contract = new_contract(100, 5);
    let _ = contract.update_tier_price(acct(1), 2, 500u128).expect("update ok");
    // The old gold price of 300 no longer buys a period.
    assert_eq!(contract.subscribe_with_tier(acct(2), 300u128, 0, 2), Err(Error::InsufficientFunds));
    assert_eq!(contract.subscribe_with_tier(acct(2), 500u128, 0, 2), Ok((1, 5)));
}

#[test]
fn non_creator_cannot_touch_tier_prices() {
    let mut contract = new_contract(100, 5);
    assert_eq!(contract.update_tier_price(acct(2), 1, 1u128), Err(Error::Unauthorized));
    assert_eq!(contract.get_tier_price(1), 200);
}

#[test]
fn withdraw_pays_the_whole_balance_to_the_creator() {
    let mut contract = new_contract(100, 5);
    let _ = contract.subscribe(acct(2), 250u128, 0).expect("subscribe ok");
    // The creator withdraws everything the ledger holds.
    assert_eq!(contract.withdraw(acct(1), 250u128), Ok(250u128));
    // A zero balance is paid out as zero, with no transfer owed.
    assert_eq!(contract.withdraw(acct(1), 0u128), Ok(0u128));
    // Withdrawal never lowers the lifetime revenue counter.
    let (_, total_rev, _) = contract.get_analytics(0);
    assert_eq!(total_rev, 250u128);
}

#[test]
fn auto_renewal_flag_has_no_engine_effect() {
    let mut contract = new_contract(100, 5);
    let _ = contract.toggle_auto_renewal(acct(2), true).expect("toggle ok");
    // The flag alone grants nothing and counts for nothing.
    assert!(!contract.is_active(acct(2), 0));
    let (_, _, _, has_pass) = contract.get_subscription_info(acct(2), 0);
    assert!(!has_pass);
    assert_eq!(contract.get_analytics(0), (0, 0u128, 0));
    // A later subscription still works and keeps the flag.
    let _ = contract.subscribe(acct(2), 100u128, 0).expect("subscribe ok");
    assert!(contract.is_auto_renewal_enabled(acct(2)));
}

#[test]
fn expiry_arithmetic_clamps_instead_of_wrapping() {
    let mut contract = new_contract(1, u32::MAX);
    // Ten maximal periods cannot fit: the expiry clamps to the maximum.
    assert_eq!(contract.subscribe(acct(1), 10u128, 0), Ok((10, u32::MAX)));
}

#[test]
fn stored_parts_rebuild_the_same_ledger() {
    let mut contract = new_contract(100, 5);
    let _ = contract.subscribe(acct(1), 300u128, 0).expect("subscribe ok");
    let _ = contract.subscribe_with_tier(acct(2), 200u128, 3, 1).expect("subscribe ok");
    let _ = contract.toggle_auto_renewal(acct(2), true).expect("toggle ok");
    let params = contract.get_params();
    let prices = contract.get_all_tier_prices();
    let (total_subs, total_rev, _) = contract.get_analytics(0);
    let rebuilt = CreatorDirect::from_parts(
        params.4,
        params.0,
        params.1,
        params.2,
        params.3,
        prices,
        contract.records(),
        contract.token_counter(),
        total_subs,
        total_rev,
    )
    .expect("parts of a live ledger are well formed");
    assert_eq!(rebuilt.get_analytics(4), contract.get_analytics(4));
    assert_eq!(rebuilt.get_nft_token(acct(1)), Some(1));
    assert_eq!(rebuilt.get_nft_token(acct(2)), Some(2));
    assert!(rebuilt.is_auto_renewal_enabled(acct(2)));
    assert!(rebuilt.is_active(acct(1), 10));
}

#[test]
fn inconsistent_parts_are_rejected() {
    // A pass holder without a token is no state this ledger ever writes.
    let records = vec![SubscriberRecord {
        account: acct(1),
        expiry: 5,
        has_pass: true,
        tier: 0,
        auto_renewal: false,
        token: None,
    }];
    let rebuilt = CreatorDirect::from_parts(
        acct(1),
        100u128,
        5,
        String::from("Demo"),
        String::from("Desc"),
        (100u128, 200u128, 300u128),
        records,
        1,
        1,
        100u128,
    );
    assert!(rebuilt.is_none());
}

#[test]
fn revenue_counter_saturates_at_the_maximum() {
    let mut contract = new_contract(1, 1);
    let _ = contract.subscribe(acct(1), u128::MAX, 0).expect("subscribe ok");
    let _ = contract.subscribe(acct(2), 5u128, 0).expect("subscribe ok");
    let (_, total_rev, _) = contract.get_analytics(0);
    assert_eq!(total_rev, u128::MAX);
}
