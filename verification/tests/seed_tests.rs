use rustecom::seed::{
    seed_categories, seed_discounts_with_ids, seed_needed, seed_product, seed_products, CategorySlot,
};

#[test]
fn seeding_stops_at_five_hundred_products() {
    assert!(seed_needed(0));
    assert!(seed_needed(499));
    assert!(!seed_needed(500));
    assert!(!seed_needed(900));
}

#[test]
fn seventh_demo_product() {
    let p = seed_product(7, 3);
    assert_eq!(p.id, 3);
    assert_eq!(p.index, 7);
    assert_eq!(p.sku, "FAKE-007");
    assert_eq!(p.title, "Fake Product 7");
    assert_eq!(p.description, "A demo product with placeholder images for item 7.");
    assert_eq!(p.price_cents, 1259);
    assert_eq!(p.currency, "USD");
    assert_eq!(p.active, 1);
    assert_eq!(p.slot, CategorySlot::Fashion);
    assert_eq!(
        p.images,
        vec![
            "https://picsum.photos/seed/FAKE-007/640/480".to_string(),
            "https://picsum.photos/seed/FAKE-007/640/480?1".to_string(),
            "https://picsum.photos/seed/FAKE-007/640/480?2".to_string(),
        ]
    );
}

#[test]
fn large_indices_are_not_padded() {
    let p = seed_product(500, 1);
    assert_eq!(p.sku, "FAKE-500");
    assert_eq!(p.price_cents, 1000 + (500 * 37) % 5000);
    assert_eq!(p.slot, CategorySlot::Electronics);
    assert_eq!(seed_product(42, 1).sku, "FAKE-042");
}

#[test]
fn seeding_fills_up_to_five_hundred() {
    let ps = seed_products(497);
    assert_eq!(ps.len(), 3);
    assert!(ps.iter().all(|p| p.id >> 76 & 0xf == 4));
    assert_eq!(ps[0].index, 498);
    assert_eq!(ps[2].index, 500);
    assert!(seed_products(500).is_empty());
    assert_eq!(seed_products(0).len(), 500);
}

#[test]
fn seeded_prices_stay_in_range() {
    for p in seed_products(0) {
        assert!(1000 <= p.price_cents && p.price_cents <= 5999);
    }
}

#[test]
fn demo_categories() {
    let cs = seed_categories();
    assert!(cs.iter().all(|c| c.id >> 76 & 0xf == 4));
    let slugs: Vec<&str> = cs.iter().map(|c| c.slug.as_str()).collect();
    assert_eq!(slugs, vec!["electronics", "kitchen", "fashion", "home", "sports"]);
    let names: Vec<&str> = cs.iter().map(|c| c.name.as_str()).collect();
    assert_eq!(names, vec!["Electronics", "Kitchen", "Fashion", "Home & Garden", "Sports & Outdoors"]);
    assert_eq!(cs[0].description, "Smart gadgets and devices");
    assert_eq!(cs[4].description, "Sporting goods and equipment");
}

#[test]
fn demo_discounts() {
    let ds = seed_discounts_with_ids(11, &vec![1, 2]);
    assert_eq!(ds[0].name, "Electronics 10%");
    assert_eq!(ds[0].percent, 10);
    assert_eq!(ds[0].category_id, Some(11));
    assert_eq!(ds[1].name, "Over $50 5%");
    assert_eq!(ds[1].percent, 5);
    assert_eq!(ds[1].min_price_cents, Some(5000));
    assert_eq!(ds[1].category_id, None);
}
