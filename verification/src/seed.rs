//! The demo catalogue a fresh store is filled with: five categories, two
//! discounts, and products up to five hundred.
use vstd::prelude::*;
use crate::ids::{new_uuid, UUID_V4_BITS, UUID_V4_MASK};
use crate::text::{decimal, decimal_string, digits_value, law_decimal_writes_the_number, law_zero_pad_keeps_text, zero_pad, zero_padded_decimal};

verus! {

/// How many products the demo catalogue holds.
pub const SEED_PRODUCT_TARGET: i64 = 500;

/// Whether a store holding `product_count` products still needs seeding.
pub fn seed_needed(product_count: i64) -> (res: bool)
    ensures
        res == (product_count < SEED_PRODUCT_TARGET),
{
    product_count < SEED_PRODUCT_TARGET
}

/// The five demo categories, by the slot products are spread over.
#[derive(Clone, Copy, Debug, PartialEq, Eq)]
pub enum CategorySlot {
    Electronics,
    Kitchen,
    Fashion,
    Home,
    Sports,
}

/// A demo category row.
#[derive(Clone, Debug, PartialEq, Eq)]
pub struct CategorySeed {
    pub id: u128,
    pub slot: CategorySlot,
    pub slug: String,
    pub name: String,
    pub description: String,
}

fn category(id: u128, slot: CategorySlot, slug: &str, name: &str, description: &str) -> (res: CategorySeed)
    ensures
        res.id == id,
        res.slot == slot,
        res.slug@ == slug@,
        res.name@ == name@,
        res.description@ == description@,
{
    CategorySeed {
        id,
        slot,
        slug: String::from_str(slug),
        name: String::from_str(name),
        description: String::from_str(description),
    }
}

/// The demo categories, each under the id `ids[k]`.
pub fn seed_categories_with_ids(ids: &Vec<u128>) -> (res: Vec<CategorySeed>)
    requires
        ids@.len() == 5,
    ensures
        res@.len() == 5,
        forall|k: int| 0 <= k < 5 ==> (#[trigger] res@[k]).id == ids@[k],
        res@[0].slot == CategorySlot::Electronics && res@[0].slug@ == "electronics"@
            && res@[0].name@ == "Electronics"@ && res@[0].description@ == "Smart gadgets and devices"@,
        res@[1].slot == CategorySlot::Kitchen && res@[1].slug@ == "kitchen"@ && res@[1].name@
            == "Kitchen"@ && res@[1].description@ == "Home and kitchen essentials"@,
        res@[2].slot == CategorySlot::Fashion && res@[2].slug@ == "fashion"@ && res@[2].name@
            == "Fashion"@ && res@[2].description@ == "Clothing and accessories"@,
        res@[3].slot == CategorySlot::Home && res@[3].slug@ == "home"@ && res@[3].name@
            == "Home & Garden"@ && res@[3].description@ == "Furniture and home decor"@,
        res@[4].slot == CategorySlot::Sports && res@[4].slug@ == "sports"@ && res@[4].name@
            == "Sports & Outdoors"@ && res@[4].description@ == "Sporting goods and equipment"@,
{
    let mut res: Vec<CategorySeed> = Vec::new();
    res.push(category(ids[0], CategorySlot::Electronics, "electronics", "Electronics", "Smart gadgets and devices"));
    res.push(category(ids[1], CategorySlot::Kitchen, "kitchen", "Kitchen", "Home and kitchen essentials"));
    res.push(category(ids[2], CategorySlot::Fashion, "fashion", "Fashion", "Clothing and accessories"));
    res.push(category(ids[3], CategorySlot::Home, "home", "Home & Garden", "Furniture and home decor"));
    res.push(category(ids[4], CategorySlot::Sports, "sports", "Sports & Outdoors", "Sporting goods and equipment"));
    res
}

/// The demo categories, each under a random id.
pub fn seed_categories() -> (res: Vec<CategorySeed>)
    ensures
        res@.len() == 5,
        res@[0].slot == CategorySlot::Electronics && res@[0].slug@ == "electronics"@
            && res@[0].name@ == "Electronics"@ && res@[0].description@ == "Smart gadgets and devices"@,
        res@[1].slot == CategorySlot::Kitchen && res@[1].slug@ == "kitchen"@ && res@[1].name@
            == "Kitchen"@ && res@[1].description@ == "Home and kitchen essentials"@,
        res@[2].slot == CategorySlot::Fashion && res@[2].slug@ == "fashion"@ && res@[2].name@
            == "Fashion"@ && res@[2].description@ == "Clothing and accessories"@,
        res@[3].slot == CategorySlot::Home && res@[3].slug@ == "home"@ && res@[3].name@
            == "Home & Garden"@ && res@[3].description@ == "Furniture and home decor"@,
        res@[4].slot == CategorySlot::Sports && res@[4].slug@ == "sports"@ && res@[4].name@
            == "Sports & Outdoors"@ && res@[4].description@ == "Sporting goods and equipment"@,
        forall|k: int| 0 <= k < 5 ==> (#[trigger] res@[k]).id & UUID_V4_MASK == UUID_V4_BITS,
{
    let mut ids: Vec<u128> = Vec::new();
    let mut k: usize = 0;
    while k < 5
        invariant
            k <= 5,
            ids@.len() == k,
            forall|j: int| 0 <= j < k ==> #[trigger] ids@[j] & UUID_V4_MASK == UUID_V4_BITS,
        decreases 5 - k,
    {
        ids.push(new_uuid());
        k += 1;
    }
    seed_categories_with_ids(&ids)
}

/// A demo discount row.
#[derive(Clone, Debug, PartialEq, Eq)]
pub struct DiscountSeed {
    pub id: u128,
    pub name: String,
    pub percent: i64,
    pub category_id: Option<u128>,
    pub min_price_cents: Option<i64>,
    pub max_price_cents: Option<i64>,
    pub active: i64,
}

/// The demo discounts: 10% off electronics (the category stored under
/// `electronics_id`) and 5% off prices of at least 5000 cents, under the
/// ids `ids[0]` and `ids[1]`.
pub fn seed_discounts_with_ids(electronics_id: u128, ids: &Vec<u128>) -> (res: Vec<DiscountSeed>)
    requires
        ids@.len() == 2,
    ensures
        res@.len() == 2,
        res@[0] == (DiscountSeed {
            id: ids@[0],
            name: res@[0].name,
            percent: 10,
            category_id: Some(electronics_id),
            min_price_cents: None,
            max_price_cents: None,
            active: 1,
        }),
        res@[0].name@ == "Electronics 10%"@,
        res@[1] == (DiscountSeed {
            id: ids@[1],
            name: res@[1].name,
            percent: 5,
            category_id: None,
            min_price_cents: Some(5000),
            max_price_cents: None,
            active: 1,
        }),
        res@[1].name@ == "Over $50 5%"@,
{
    let mut res: Vec<DiscountSeed> = Vec::new();
    res.push(
        DiscountSeed {
            id: ids[0],
            name: String::from_str("Electronics 10%"),
            percent: 10,
            category_id: Some(electronics_id),
            min_price_cents: None,
            max_price_cents: None,
            active: 1,
        },
    );
    res.push(
        DiscountSeed {
            id: ids[1],
            name: String::from_str("Over $50 5%"),
            percent: 5,
            category_id: None,
            min_price_cents: Some(5000),
            max_price_cents: None,
            active: 1,
        },
    );
    res
}

/// The demo discounts, each under a random id (see `seed_discounts_with_ids`).
pub fn seed_discounts(electronics_id: u128) -> (res: Vec<DiscountSeed>)
    ensures
        res@.len() == 2,
        res@[0].percent == 10 && res@[0].category_id == Some(electronics_id)
            && res@[0].min_price_cents is None && res@[0].max_price_cents is None && res@[0].active
            == 1 && res@[0].name@ == "Electronics 10%"@,
        res@[1].percent == 5 && res@[1].category_id is None && res@[1].min_price_cents == Some(
            5000i64,
        ) && res@[1].max_price_cents is None && res@[1].active == 1 && res@[1].name@
            == "Over $50 5%"@,
        res@[0].id & UUID_V4_MASK == UUID_V4_BITS,
        res@[1].id & UUID_V4_MASK == UUID_V4_BITS,
{
    let mut ids: Vec<u128> = Vec::new();
    ids.push(new_uuid());
    ids.push(new_uuid());
    seed_discounts_with_ids(electronics_id, &ids)
}

/// A demo product row, with the category slot it is filed under.
#[derive(Clone, Debug, PartialEq, Eq)]
pub struct SeedProduct {
    pub id: u128,
    pub index: i64,
    pub sku: String,
    pub title: String,
    pub description: String,
    pub price_cents: i64,
    pub currency: String,
    pub active: i64,
    pub images: Vec<String>,
    pub slot: CategorySlot,
}

/// The category slot of the `i`-th demo product.
pub open spec fn slot_of(i: int) -> CategorySlot {
    if i % 5 == 0 {
        CategorySlot::Electronics
    } else if i % 5 == 1 {
        CategorySlot::Kitchen
    } else if i % 5 == 2 {
        CategorySlot::Fashion
    } else if i % 5 == 3 {
        CategorySlot::Home
    } else {
        CategorySlot::Sports
    }
}

/// The price of the `i`-th demo product.
pub open spec fn seed_price(i: int) -> int {
    1000 + (i * 37) % 5000
}

/// The SKU of the `i`-th demo product: `FAKE-` and `i` in at least three digits.
pub open spec fn seed_sku(i: nat) -> Seq<char> {
    "FAKE-"@ + zero_pad(decimal(i), 3)
}

/// The URL of image `suffix` of the product with SKU `sku`.
pub open spec fn image_url(sku: Seq<char>, suffix: Seq<char>) -> Seq<char> {
    "https://picsum.photos/seed/"@ + sku + "/640/480"@ + suffix
}

/// Whether `p` is the `i`-th demo product under the id `id`.
pub open spec fn is_seed_product(p: SeedProduct, i: int, id: u128) -> bool {
    &&& p.id == id
    &&& p.index == i
    &&& p.sku@ == seed_sku(i as nat)
    &&& p.title@ == "Fake Product "@ + decimal(i as nat)
    &&& p.description@ == "A demo product with placeholder images for item "@ + decimal(i as nat)
        + "."@
    &&& p.price_cents == seed_price(i)
    &&& p.currency@ == "USD"@
    &&& p.active == 1
    &&& p.images@.len() == 3
    &&& p.images@[0]@ == image_url(seed_sku(i as nat), Seq::empty())
    &&& p.images@[1]@ == image_url(seed_sku(i as nat), "?1"@)
    &&& p.images@[2]@ == image_url(seed_sku(i as nat), "?2"@)
    &&& p.slot == slot_of(i)
}

fn image(sku: &String, suffix: &str) -> (res: String)
    ensures
        res@ == "https://picsum.photos/seed/"@ + sku@ + "/640/480"@ + suffix@,
{
    let mut url = String::from_str("https://picsum.photos/seed/");
    url.append(sku.as_str());
    url.append("/640/480");
    url.append(suffix);
    url
}

/// The `i`-th demo product, under the id `id`.
pub fn seed_product(i: i64, id: u128) -> (res: SeedProduct)
    requires
        1 <= i <= SEED_PRODUCT_TARGET,
    ensures
        is_seed_product(res, i as int, id),
{
    let n = i as u64;
    let mut sku = String::from_str("FAKE-");
    let digits = zero_padded_decimal(n, 3);
    sku.append(digits.as_str());
    let number = decimal_string(n);
    let mut title = String::from_str("Fake Product ");
    title.append(number.as_str());
    let mut description = String::from_str("A demo product with placeholder images for item ");
    description.append(number.as_str());
    description.append(".");
    let price_cents = 1000 + (i * 37) % 5000;
    let mut images: Vec<String> = Vec::new();
    let first = image(&sku, "");
    proof {
        reveal_strlit("");
        assert(first@ == image_url(seed_sku(i as nat), Seq::empty()));
    }
    images.push(first);
    images.push(image(&sku, "?1"));
    images.push(image(&sku, "?2"));
    let slot = if i % 5 == 0 {
        CategorySlot::Electronics
    } else if i % 5 == 1 {
        CategorySlot::Kitchen
    } else if i % 5 == 2 {
        CategorySlot::Fashion
    } else if i % 5 == 3 {
        CategorySlot::Home
    } else {
        CategorySlot::Sports
    };
    SeedProduct {
        id,
        index: i,
        sku,
        title,
        description,
        price_cents,
        currency: String::from_str("USD"),
        active: 1,
        images,
        slot,
    }
}

/// The demo products that a store holding `product_count` products lacks:
/// the `i`-th for each `i` from `product_count + 1` to 500, the `k`-th of
/// them under the id `ids[k]`.
pub fn seed_products_with_ids(product_count: i64, ids: &Vec<u128>) -> (res: Vec<SeedProduct>)
    requires
        0 <= product_count,
        ids@.len() == (if product_count < SEED_PRODUCT_TARGET { SEED_PRODUCT_TARGET - product_count } else { 0 }),
    ensures
        res@.len() == ids@.len(),
        forall|k: int|
            0 <= k < res@.len() ==> is_seed_product(#[trigger] res@[k], product_count + 1 + k, ids@[k]),
{
    let mut res: Vec<SeedProduct> = Vec::new();
    if product_count >= SEED_PRODUCT_TARGET {
        return res;
    }
    let mut i: i64 = product_count + 1;
    while i <= SEED_PRODUCT_TARGET
        invariant
            0 <= product_count < SEED_PRODUCT_TARGET,
            product_count + 1 <= i <= SEED_PRODUCT_TARGET + 1,
            ids@.len() == SEED_PRODUCT_TARGET - product_count,
            res@.len() == i - product_count - 1,
            forall|k: int|
                0 <= k < res@.len() ==> is_seed_product(#[trigger] res@[k], product_count + 1 + k, ids@[k]),
        decreases SEED_PRODUCT_TARGET + 1 - i,
    {
        let k = (i - product_count - 1) as usize;
        let p = seed_product(i, ids[k]);
        res.push(p);
        i += 1;
    }
    res
}

/// The demo products that a store holding `product_count` products lacks
/// (see `seed_products_with_ids`), each under a random id.
pub fn seed_products(product_count: i64) -> (res: Vec<SeedProduct>)
    requires
        0 <= product_count,
    ensures
        res@.len() == seeded_count(product_count as int),
        forall|k: int|
            0 <= k < res@.len() ==> is_seed_product(#[trigger] res@[k], product_count + 1 + k, res@[k].id),
        forall|k: int| 0 <= k < res@.len() ==> (#[trigger] res@[k]).id & UUID_V4_MASK == UUID_V4_BITS,
{
    let mut ids: Vec<u128> = Vec::new();
    let n: i64 = if product_count < SEED_PRODUCT_TARGET { SEED_PRODUCT_TARGET - product_count } else { 0 };
    let mut k: i64 = 0;
    while k < n
        invariant
            0 <= k <= n,
            n <= SEED_PRODUCT_TARGET,
            ids@.len() == k,
            forall|j: int| 0 <= j < k ==> #[trigger] ids@[j] & UUID_V4_MASK == UUID_V4_BITS,
        decreases n - k,
    {
        ids.push(new_uuid());
        k += 1;
    }
    seed_products_with_ids(product_count, &ids)
}

/// Law: every demo product costs between 1000 and 5999 cents.
pub proof fn law_seed_prices_in_range(i: int)
    requires
        1 <= i,
    ensures
        1000 <= seed_price(i) <= 5999,
{
}

/// How many demo products seeding adds to a store holding `product_count`.
pub open spec fn seeded_count(product_count: int) -> int {
    if product_count < SEED_PRODUCT_TARGET {
        SEED_PRODUCT_TARGET - product_count
    } else {
        0
    }
}

/// Law: seeding is done once: after the products it adds, the store holds
/// at least 500 products, so a second run finds nothing to seed and adds no
/// product.
pub proof fn law_seeding_is_idempotent(product_count: int)
    requires
        product_count >= 0,
    ensures
        product_count + seeded_count(product_count) >= SEED_PRODUCT_TARGET,
        !(product_count + seeded_count(product_count) < SEED_PRODUCT_TARGET),
        seeded_count(product_count + seeded_count(product_count)) == 0,
{
}

/// Law: demo products are spread over the five categories in turn: five
/// consecutive products fall into five different categories, and the
/// pattern repeats every five products.
pub proof fn law_categories_in_rotation(i: int)
    requires
        i >= 0,
    ensures
        slot_of(i + 5) == slot_of(i),
        slot_of(i) != slot_of(i + 1),
        slot_of(i) != slot_of(i + 2),
        slot_of(i) != slot_of(i + 3),
        slot_of(i) != slot_of(i + 4),
{
}

proof fn lemma_leading_zeros(m: nat, s: Seq<char>)
    ensures
        digits_value(Seq::new(m, |k: int| '0') + s) == digits_value(s),
    decreases m, s.len(),
{
    if m > 0 {
        if s.len() == 0 {
            let z = Seq::new(m, |k: int| '0');
            assert(z + s =~= Seq::new((m - 1) as nat, |k: int| '0') + seq!['0']);
            lemma_leading_zeros((m - 1) as nat, Seq::empty());
            assert(Seq::new((m - 1) as nat, |k: int| '0') + Seq::<char>::empty() =~= Seq::new(
                (m - 1) as nat,
                |k: int| '0',
            ));
            assert((Seq::new((m - 1) as nat, |k: int| '0') + seq!['0']).drop_last() =~= Seq::new(
                (m - 1) as nat,
                |k: int| '0',
            ));
            assert(digits_value(Seq::<char>::empty()) == 0);
        } else {
            lemma_leading_zeros(m, s.drop_last());
            let z = Seq::new(m, |k: int| '0');
            assert((z + s).drop_last() =~= z + s.drop_last());
            assert((z + s).last() == s.last());
        }
    }
}

/// Law: the SKU of the `i`-th demo product (1 to 999) is `FAKE-` followed
/// by exactly three decimal digits that stand for `i`.
pub proof fn law_sku_names_the_product(i: nat)
    requires
        1 <= i <= 999,
    ensures
        seed_sku(i).len() == 8,
        seed_sku(i).take(5) == "FAKE-"@,
        forall|k: int| 5 <= k < 8 ==> '0' <= #[trigger] seed_sku(i)[k] <= '9',
        digits_value(seed_sku(i).skip(5)) == i,
{
    reveal_strlit("FAKE-");
    law_decimal_writes_the_number(i);
    law_zero_pad_keeps_text(decimal(i), 3);
    let d = decimal(i);
    assert(d.len() <= 3) by {
        if i >= 10 {
            assert(d.len() == decimal(i / 10).len() + 1);
            if i / 10 >= 10 {
                assert(decimal(i / 10).len() == decimal(i / 10 / 10).len() + 1);
                assert(i / 10 / 10 < 10);
                assert(decimal(i / 10 / 10).len() == 1);
            } else {
                assert(decimal(i / 10).len() == 1);
            }
        } else {
            assert(d.len() == 1);
        }
    }
    let pad = zero_pad(d, 3);
    let sku = seed_sku(i);
    assert(sku == "FAKE-"@ + pad);
    assert(sku.skip(5) =~= pad);
    assert(sku.take(5) =~= "FAKE-"@);
    if d.len() < 3 {
        assert(pad == Seq::new((3 - d.len()) as nat, |k: int| '0') + d);
        lemma_leading_zeros((3 - d.len()) as nat, d);
    }
    assert forall|k: int| 5 <= k < 8 implies '0' <= #[trigger] sku[k] <= '9' by {
        assert(sku[k] == pad[k - 5]);
        if k - 5 >= pad.len() - d.len() {
            assert(pad[k - 5] == pad.subrange(pad.len() - d.len(), pad.len() as int)[k - 5 - (pad.len() - d.len())]);
        }
    }
}

} // verus!
