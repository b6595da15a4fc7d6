use rustecom::pricing::{apply_percent, discount_matches, discounted_price, get_best_discount_percent};
use rustecom::schema::Discount;

fn discount(percent: i64, category_id: Option<u128>, min: Option<i64>, max: Option<i64>, active: bool) -> Discount {
    Discount {
        id: 1,
        name: "d".to_string(),
        percent,
        category_id,
        min_price_cents: min,
        max_price_cents: max,
        active,
        created_at: String::new(),
        updated_at: String::new(),
    }
}

#[test]
fn apply_percent_takes_off_the_percentage() {
    assert_eq!(apply_percent(1000, 10), 900);
    assert_eq!(apply_percent(1999, 5), 1900);
    assert_eq!(apply_percent(1234, 0), 1234);
    assert_eq!(apply_percent(1234, 100), 0);
}

#[test]
fn apply_percent_rounds_the_discount_toward_zero() {
    // 1005 * 10 / 100 = 100.5, the discount is 100
    assert_eq!(apply_percent(1005, 10), 905);
    // -1005 * 10 / 100 = -100.5, the discount is -100
    assert_eq!(apply_percent(-1005, 10), -905);
}

#[test]
fn only_a_positive_percentage_changes_the_price() {
    assert_eq!(discounted_price(5000, 0), 5000);
    assert_eq!(discounted_price(5000, -5), 5000);
    assert_eq!(discounted_price(5000, 5), 4750);
}

#[test]
fn category_discount_matches_its_category() {
    let d = discount(10, Some(7), Some(100_000), None, true);
    assert!(discount_matches(&d, &vec![3, 7], 50));
    assert!(!discount_matches(&d, &vec![3], 200_000));
    assert!(!discount_matches(&d, &vec![3], 50));
}

#[test]
fn price_range_discount_matches_prices_in_range() {
    let d = discount(5, None, Some(5000), Some(6000), true);
    assert!(discount_matches(&d, &vec![], 5000));
    assert!(discount_matches(&d, &vec![], 6000));
    assert!(!discount_matches(&d, &vec![], 4999));
    assert!(!discount_matches(&d, &vec![], 6001));
}

#[test]
fn inactive_discount_never_matches() {
    let d = discount(50, None, None, None, false);
    assert!(!discount_matches(&d, &vec![], 100));
}

#[test]
fn category_discount_applies_only_to_its_category() {
    // A discount that names a category applies by category alone, whatever
    // price bounds it carries.
    let d = discount(10, Some(7), None, None, true);
    assert!(!discount_matches(&d, &vec![1], 1234));
    assert!(discount_matches(&d, &vec![7], 1234));
}

#[test]
fn seeded_discounts_on_a_kitchen_product() {
    // 10% off electronics, and 5% off prices of at least 5000 cents.
    let electronics = 11;
    let kitchen = 12;
    let ds = vec![
        discount(10, Some(electronics), None, None, true),
        discount(5, None, Some(5000), None, true),
    ];
    assert_eq!(get_best_discount_percent(&ds, &vec![kitchen], 5500), 5);
    assert_eq!(get_best_discount_percent(&ds, &vec![kitchen], 4000), 0);
    assert_eq!(get_best_discount_percent(&ds, &vec![electronics], 4000), 10);
    assert_eq!(get_best_discount_percent(&ds, &vec![electronics], 5500), 10);
}

#[test]
fn best_discount_is_the_largest_that_applies() {
    let ds = vec![
        discount(10, Some(1), None, None, true),
        discount(5, None, Some(5000), None, true),
        discount(40, None, None, None, false),
        discount(20, Some(9), None, None, true),
    ];
    assert_eq!(get_best_discount_percent(&ds, &vec![1], 6000), 10);
    assert_eq!(get_best_discount_percent(&ds, &vec![2], 6000), 5);
    assert_eq!(get_best_discount_percent(&ds, &vec![2], 4000), 0);
    assert_eq!(get_best_discount_percent(&ds, &vec![1, 9], 100), 20);
}

#[test]
fn best_discount_of_no_discounts_is_zero() {
    assert_eq!(get_best_discount_percent(&vec![], &vec![1], 100), 0);
}

#[test]
fn best_discount_may_be_negative() {
    let ds = vec![discount(-3, None, None, None, true)];
    assert_eq!(get_best_discount_percent(&ds, &vec![], 100), -3);
}
