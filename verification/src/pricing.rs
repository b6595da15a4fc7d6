//! Prices and discounts. The best discount that applies to a product is
//! taken off its price, rounded toward zero.
use vstd::prelude::*;
use crate::schema::Discount;

verus! {

/// Integer division that rounds toward zero, as Rust's `/` on `i64` does.
pub open spec fn div_toward_zero(a: int, b: int) -> int
    recommends
        b != 0,
{
    if a >= 0 {
        a / b
    } else {
        -((-a) / b)
    }
}

/// The price left after taking `percent` percent off `price_cents`,
/// the discount being rounded toward zero.
pub open spec fn discounted(price_cents: int, percent: int) -> int {
    price_cents - div_toward_zero(price_cents * percent, 100)
}

/// The price charged once the best discount percentage is known: only a
/// positive percentage changes the price.
pub open spec fn price_after(price_cents: int, percent: int) -> int {
    if percent > 0 {
        discounted(price_cents, percent)
    } else {
        price_cents
    }
}

/// Whether taking `percent` percent off `price_cents` stays within `i64`.
pub open spec fn percent_fits(price_cents: int, percent: int) -> bool {
    &&& i64::MIN <= price_cents * percent <= i64::MAX
    &&& i64::MIN <= discounted(price_cents, percent) <= i64::MAX
}

/// Takes `percent` percent off `price_cents`.
pub fn apply_percent(price_cents: i64, percent: i64) -> (res: i64)
    requires
        percent_fits(price_cents as int, percent as int),
    ensures
        res == discounted(price_cents as int, percent as int),
{
    let off = price_cents * percent / 100;
    price_cents - off
}

/// The price once `percent` is applied, if it is positive.
pub fn discounted_price(price_cents: i64, percent: i64) -> (res: i64)
    requires
        percent > 0 ==> percent_fits(price_cents as int, percent as int),
    ensures
        res == price_after(price_cents as int, percent as int),
{
    if percent > 0 {
        apply_percent(price_cents, percent)
    } else {
        price_cents
    }
}

/// Whether discount `d` applies to a product of the categories `categories`
/// priced `price_cents`. It must be active, and then either it names a
/// category and the product is in it (a category-based discount), or it
/// names no category and its price range (open ends allowed) holds the price
/// (a price-based discount).
pub open spec fn discount_applies(d: Discount, categories: Seq<u128>, price_cents: int) -> bool {
    &&& d.active
    &&& match d.category_id {
        Some(c) => categories.contains(c),
        None => (d.min_price_cents is None || d.min_price_cents->0 <= price_cents) && (
        d.max_price_cents is None || d.max_price_cents->0 >= price_cents),
    }
}

/// Whether the `i`-th discount of `ds` applies.
pub open spec fn applies_at(ds: Seq<Discount>, categories: Seq<u128>, price_cents: int, i: int) -> bool {
    0 <= i < ds.len() && discount_applies(ds[i], categories, price_cents)
}

/// Whether `p` is the best percentage among the discounts of `ds` that
/// apply: their maximum, or 0 where none applies.
pub open spec fn is_best_percent(ds: Seq<Discount>, categories: Seq<u128>, price_cents: int, p: int) -> bool {
    if exists|i: int| #[trigger] applies_at(ds, categories, price_cents, i) {
        &&& exists|i: int| #[trigger]
            applies_at(ds, categories, price_cents, i) && ds[i].percent == p
        &&& forall|i: int| #[trigger]
            applies_at(ds, categories, price_cents, i) ==> ds[i].percent <= p
    } else {
        p == 0
    }
}

/// Whether `ids` holds `id`.
fn contains_id(ids: &Vec<u128>, id: u128) -> (res: bool)
    ensures
        res == ids@.contains(id),
{
    let mut i: usize = 0;
    while i < ids.len()
        invariant
            i <= ids.len(),
            forall|k: int| 0 <= k < i ==> ids@[k] != id,
        decreases ids.len() - i,
    {
        if ids[i] == id {
            return true;
        }
        i += 1;
    }
    false
}

/// Whether `d` applies to a product of the categories `category_ids`
/// priced `price_cents`.
pub fn discount_matches(d: &Discount, category_ids: &Vec<u128>, price_cents: i64) -> (res: bool)
    ensures
        res == discount_applies(*d, category_ids@, price_cents as int),
{
    if !d.active {
        return false;
    }
    match d.category_id {
        Some(c) => contains_id(category_ids, c),
        None => {
            let above_min = match d.min_price_cents {
                Some(m) => m <= price_cents,
                None => true,
            };
            let below_max = match d.max_price_cents {
                Some(m) => m >= price_cents,
                None => true,
            };
            above_min && below_max
        },
    }
}

/// The best discount percentage for a product of the categories
/// `category_ids` priced `price_cents`: the largest percentage among the
/// discounts that apply, or 0 where none does.
pub fn get_best_discount_percent(
    discounts: &Vec<Discount>,
    category_ids: &Vec<u128>,
    price_cents: i64,
) -> (res: i64)
    ensures
        is_best_percent(discounts@, category_ids@, price_cents as int, res as int),
{
    let ghost ds = discounts@;
    let ghost cats = category_ids@;
    let ghost price = price_cents as int;
    let mut best: Option<i64> = None;
    let mut i: usize = 0;
    while i < discounts.len()
        invariant
            i <= discounts.len(),
            ds == discounts@,
            cats == category_ids@,
            price == price_cents as int,
            match best {
                None => forall|k: int| 0 <= k < i ==> !#[trigger] applies_at(ds, cats, price, k),
                Some(b) => {
                    &&& exists|k: int| 0 <= k < i && #[trigger] applies_at(ds, cats, price, k)
                        && ds[k].percent == b
                    &&& forall|k: int|
                        0 <= k < i && #[trigger] applies_at(ds, cats, price, k) ==> ds[k].percent <= b
                },
            },
        decreases discounts.len() - i,
    {
        if discount_matches(&discounts[i], category_ids, price_cents) {
            let p = discounts[i].percent;
            assert(applies_at(ds, cats, price, i as int));
            match best {
                None => {
                    best = Some(p);
                },
                Some(b) => {
                    if p > b {
                        best = Some(p);
                    }
                },
            }
        } else {
            assert(!applies_at(ds, cats, price, i as int));
        }
        i += 1;
    }
    match best {
        None => 0,
        Some(b) => b,
    }
}

/// Law: a discount of at most 100 percent never makes a non-negative price
/// negative, nor raises it.
pub proof fn law_discount_within_price(price_cents: int, percent: int)
    requires
        price_cents >= 0,
        0 <= percent <= 100,
    ensures
        0 <= price_after(price_cents, percent) <= price_cents,
{
    if percent > 0 {
        assert(0 <= price_cents * percent <= price_cents * 100) by (nonlinear_arith)
            requires
                price_cents >= 0,
                0 <= percent <= 100,
        ;
        assert((price_cents * percent) / 100 <= price_cents) by (nonlinear_arith)
            requires
                0 <= price_cents * percent <= price_cents * 100,
        ;
    }
}

/// Law: on a non-negative price a larger discount percentage never
/// leaves a higher price.
pub proof fn law_larger_discount_lower_price(price_cents: int, p1: int, p2: int)
    requires
        price_cents >= 0,
        p1 <= p2,
    ensures
        price_after(price_cents, p2) <= price_after(price_cents, p1),
{
    if p2 > 0 {
        if p1 > 0 {
            assert(price_cents * p1 <= price_cents * p2) by (nonlinear_arith)
                requires
                    price_cents >= 0,
                    p1 <= p2,
            ;
            assert(0 <= price_cents * p1) by (nonlinear_arith)
                requires
                    price_cents >= 0,
                    p1 > 0,
            ;
            assert((price_cents * p1) / 100 <= (price_cents * p2) / 100) by (nonlinear_arith)
                requires
                    price_cents * p1 <= price_cents * p2,
            ;
        } else {
            assert(0 <= price_cents * p2) by (nonlinear_arith)
                requires
                    price_cents >= 0,
                    p2 > 0,
            ;
        }
    }
}

/// Law: an inactive discount never applies, whatever it names.
pub proof fn law_inactive_discount_never_applies(d: Discount, categories: Seq<u128>, price_cents: int)
    requires
        !d.active,
    ensures
        !discount_applies(d, categories, price_cents),
{
}

/// Law: where every discount is inactive, the best percentage is 0.
pub proof fn law_all_inactive_gives_zero(ds: Seq<Discount>, categories: Seq<u128>, price_cents: int, p: int)
    requires
        forall|i: int| 0 <= i < ds.len() ==> !(#[trigger] ds[i]).active,
        is_best_percent(ds, categories, price_cents, p),
    ensures
        p == 0,
{
    assert forall|i: int| !#[trigger] applies_at(ds, categories, price_cents, i) by {
        if 0 <= i < ds.len() {
            assert(!ds[i].active);
        }
    }
}

/// Law: an active discount that names a category applies exactly to the
/// products of that category, whatever their price and whatever price
/// bounds it carries.
pub proof fn law_category_discount_by_category(d: Discount, categories: Seq<u128>, price_cents: int, c: u128)
    requires
        d.active,
        d.category_id == Some(c),
    ensures
        discount_applies(d, categories, price_cents) <==> categories.contains(c),
{
}

/// Law: an active discount that names no category applies exactly to the
/// prices that are at least its minimum (if any) and at most its maximum
/// (if any), whatever the product's categories.
pub proof fn law_price_discount_by_price(d: Discount, categories: Seq<u128>, price_cents: int)
    requires
        d.active,
        d.category_id is None,
    ensures
        discount_applies(d, categories, price_cents) <==> (forall|m: i64|
            d.min_price_cents == Some(m) ==> m <= price_cents) && (forall|m: i64|
            d.max_price_cents == Some(m) ==> price_cents <= m),
{
}

/// Law: the best percentage is at least the percentage of every discount
/// that applies, is the percentage of one of them where any applies, and is
/// 0 where none applies.
pub proof fn law_best_percent_is_maximum(ds: Seq<Discount>, categories: Seq<u128>, price_cents: int, p: int)
    requires
        is_best_percent(ds, categories, price_cents, p),
    ensures
        forall|i: int|
            0 <= i < ds.len() && discount_applies(#[trigger] ds[i], categories, price_cents) ==> ds[i].percent <= p,
        (exists|i: int| 0 <= i < ds.len() && discount_applies(#[trigger] ds[i], categories, price_cents)) ==> (exists|i: int|
            0 <= i < ds.len() && discount_applies(#[trigger] ds[i], categories, price_cents) && ds[i].percent == p),
        (forall|i: int| 0 <= i < ds.len() ==> !discount_applies(#[trigger] ds[i], categories, price_cents)) ==> p == 0,
{
    if exists|i: int| 0 <= i < ds.len() && discount_applies(#[trigger] ds[i], categories, price_cents) {
        let i = choose|i: int| 0 <= i < ds.len() && discount_applies(#[trigger] ds[i], categories, price_cents);
        assert(applies_at(ds, categories, price_cents, i));
        let j = choose|j: int| #[trigger] applies_at(ds, categories, price_cents, j) && ds[j].percent == p;
        assert(0 <= j < ds.len() && discount_applies(ds[j], categories, price_cents));
    }
    assert forall|i: int|
        0 <= i < ds.len() && discount_applies(#[trigger] ds[i], categories, price_cents) implies ds[i].percent <= p by {
        assert(applies_at(ds, categories, price_cents, i));
    }
    if forall|i: int| 0 <= i < ds.len() ==> !discount_applies(#[trigger] ds[i], categories, price_cents) {
        assert forall|i: int| !#[trigger] applies_at(ds, categories, price_cents, i) by {
            if 0 <= i < ds.len() {
                assert(!discount_applies(ds[i], categories, price_cents));
            }
        }
    }
}

/// Law: on a non-negative price, a positive percentage takes off the price
/// times the percentage divided by 100, rounded down; a percentage of 0 or
/// less leaves the price as it is.
pub proof fn law_price_after_percent(price_cents: int, percent: int)
    requires
        price_cents >= 0,
    ensures
        percent > 0 ==> price_after(price_cents, percent) == price_cents - (price_cents * percent) / 100,
        percent <= 0 ==> price_after(price_cents, percent) == price_cents,
{
    if percent > 0 {
        assert(price_cents * percent >= 0) by (nonlinear_arith)
            requires
                price_cents >= 0,
                percent > 0,
        ;
    }
}

/// Law: the discount is rounded toward zero: on a negative price, a
/// positive percentage adds back the price's magnitude times the percentage
/// divided by 100, rounded down.
pub proof fn law_negative_price_rounds_toward_zero(price_cents: int, percent: int)
    requires
        price_cents < 0,
        percent > 0,
    ensures
        price_after(price_cents, percent) == price_cents + ((-price_cents) * percent) / 100,
{
    assert(price_cents * percent < 0) by (nonlinear_arith)
        requires
            price_cents < 0,
            percent > 0,
    ;
    assert(-(price_cents * percent) == (-price_cents) * percent) by (nonlinear_arith);
}

} // verus!
