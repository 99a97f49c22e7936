use komobot::cache::{SponsorCache, REFRESH_INTERVAL_MS};
use komobot::github::{
    bucket_for, categorize_sponsors, SponsorEntity, SponsorLevel, SponsorLists, Sponsorship,
    Tier, TierBucket,
};

fn record(login: &str, amount: i32, one_time: bool, active: bool) -> Sponsorship {
    Sponsorship {
        tier: Tier { monthly_price_in_dollars: amount, is_one_time: one_time },
        sponsor_entity: SponsorEntity { login: login.to_string() },
        is_active: active,
    }
}

fn logins(lists: &SponsorLists, b: TierBucket) -> Vec<String> {
    lists.bucket(b).iter().map(|i| i.login.clone()).collect()
}

const ALL: [TierBucket; 6] = [
    TierBucket::OneDollarMonthly,
    TierBucket::FiveDollarMonthly,
    TierBucket::TenDollarMonthly,
    TierBucket::TwentyDollarMonthly,
    TierBucket::CurrentOneTime,
    TierBucket::PreviousSponsor,
];

#[test]
fn alice_and_bob_end_to_end() {
    let lists = categorize_sponsors(vec![record("alice", 5, false, true), record("bob", 1, false, false)]);
    assert_eq!(logins(&lists, TierBucket::FiveDollarMonthly), vec!["alice".to_string()]);
    assert_eq!(logins(&lists, TierBucket::PreviousSponsor), vec!["bob".to_string()]);
    assert!(logins(&lists, TierBucket::OneDollarMonthly).is_empty());
    assert!(logins(&lists, TierBucket::TenDollarMonthly).is_empty());
    assert!(logins(&lists, TierBucket::TwentyDollarMonthly).is_empty());
    assert!(logins(&lists, TierBucket::CurrentOneTime).is_empty());
    assert_eq!(lists.level_for_user("alice"), SponsorLevel::FiveDollar);
    assert_eq!(lists.level_for_user("bob"), SponsorLevel::Alumni);
    assert_eq!(lists.level_for_user("carol"), SponsorLevel::Unrecognized);
}

#[test]
fn unconventional_amount_is_dropped() {
    let lists = categorize_sponsors(vec![record("dave", 7, false, true)]);
    for b in ALL {
        assert!(lists.bucket(b).is_empty());
    }
    assert_eq!(bucket_for(&record("dave", 7, false, true)), None);
    assert_eq!(lists.level_for_user("dave"), SponsorLevel::Unrecognized);
    assert_eq!(lists.total_active_count(), 0);
}

#[test]
fn each_record_counted_once() {
    let records = vec![
        record("a", 1, false, true),
        record("b", 5, false, true),
        record("c", 10, false, true),
        record("d", 20, false, true),
        record("e", 3, true, true),
        record("f", 20, true, false),
        record("g", 15, false, true),
        record("a", 1, false, true),
    ];
    let n = records.len();
    let lists = categorize_sponsors(records);
    let placed: usize = ALL.iter().map(|b| lists.bucket(*b).len()).sum();
    assert_eq!(placed + 1, n);
    assert_eq!(logins(&lists, TierBucket::OneDollarMonthly), vec!["a".to_string(), "a".to_string()]);
    assert_eq!(logins(&lists, TierBucket::TenDollarMonthly), vec!["c".to_string()]);
    assert_eq!(logins(&lists, TierBucket::TwentyDollarMonthly), vec!["d".to_string()]);
    assert_eq!(logins(&lists, TierBucket::CurrentOneTime), vec!["e".to_string()]);
    assert_eq!(logins(&lists, TierBucket::PreviousSponsor), vec!["f".to_string()]);
    assert_eq!(lists.total_active_count(), 6);
    assert_eq!(lists.bucket(TierBucket::PreviousSponsor)[0].amount, 20);
}

#[test]
fn classification_is_repeatable() {
    let make = || vec![record("x", 10, false, true), record("y", 2, true, true), record("z", 5, false, false)];
    let a = categorize_sponsors(make());
    let b = categorize_sponsors(make());
    for t in ALL {
        assert_eq!(logins(&a, t), logins(&b, t));
    }
}

#[test]
fn alumni_wins_over_one_time() {
    let lists = categorize_sponsors(vec![record("u", 1, true, true), record("u", 5, false, false)]);
    assert_eq!(lists.level_for_user("u"), SponsorLevel::Alumni);
    let lists = categorize_sponsors(vec![record("v", 1, true, true)]);
    assert_eq!(lists.level_for_user("v"), SponsorLevel::OneTime);
}

#[test]
fn monthly_wins_over_alumni() {
    let lists = categorize_sponsors(vec![record("w", 5, false, false), record("w", 20, false, true)]);
    assert_eq!(lists.level_for_user("w"), SponsorLevel::TwentyDollar);
}

#[test]
fn empty_records_give_empty_lists() {
    let lists = categorize_sponsors(Vec::new());
    for b in ALL {
        assert!(lists.bucket(b).is_empty());
    }
    assert_eq!(lists.level_for_user(""), SponsorLevel::Unrecognized);
}

#[test]
fn level_names() {
    assert_eq!(SponsorLevel::OneDollar.name(), "OneDollar");
    assert_eq!(SponsorLevel::TwentyDollar.name(), "TwentyDollar");
    assert_eq!(SponsorLevel::Alumni.name(), "Alumni");
    assert_eq!(SponsorLevel::Unrecognized.name(), "None");
}

#[test]
fn cache_serves_snapshot_within_interval() {
    let mut cache = SponsorCache::new(categorize_sponsors(vec![record("alice", 5, false, true)]), 1_000, REFRESH_INTERVAL_MS);
    assert!(!cache.needs_refresh(1_000 + REFRESH_INTERVAL_MS));
    assert!(cache.needs_refresh(1_001 + REFRESH_INTERVAL_MS));
    assert!(!cache.needs_refresh(0));
    assert_eq!(cache.query("alice"), SponsorLevel::FiveDollar);
    let t1 = 2_000 + REFRESH_INTERVAL_MS;
    assert!(cache.needs_refresh(t1));
    cache.refresh(vec![record("alice", 10, false, true)], t1);
    assert_eq!(cache.fetched_at, t1);
    assert!(!cache.needs_refresh(t1 + REFRESH_INTERVAL_MS));
    assert_eq!(cache.query("alice"), SponsorLevel::TenDollar);
    assert_eq!(cache.total_active_count(), 1);
}

#[test]
fn interval_is_five_minutes() {
    assert_eq!(REFRESH_INTERVAL_MS, 300_000);
}
