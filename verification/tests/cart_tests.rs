use rustecom::cart::{
    apply_cart_discounts, cart_item_write, cart_total, choose_cart_with_id, discount_keys, get_cart, require_user,
    validate_quantity, CartChoice, CartItemResponse, CartItemWrite,
};

const PRODUCT: &str = "a1a2a3a4-b1b2-c1c2-d1d2-d3d4d5d6d7d8";
const PRODUCT_VALUE: u128 = 0xa1a2a3a4b1b2c1c2d1d2d3d4d5d6d7d8;

fn line(product_id: &str, quantity: i64, unit: i64) -> CartItemResponse {
    CartItemResponse {
        product_id: product_id.to_string(),
        title: "T".to_string(),
        quantity,
        unit_price_cents: unit,
        subtotal_cents: quantity * unit,
    }
}

#[test]
fn discount_keys_parse_product_ids() {
    let keys = discount_keys(&vec![line(PRODUCT, 1, 100), line("not-a-uuid", 1, 100)]);
    assert_eq!(keys, vec![Some(PRODUCT_VALUE), None]);
}

#[test]
fn discounted_line_gets_new_unit_price_and_subtotal() {
    let lines = apply_cart_discounts(vec![line(PRODUCT, 3, 1000), line(PRODUCT, 2, 500), line("x", 1, 700)], &vec![
        Some(10),
        Some(0),
        None,
    ]);
    assert_eq!(lines[0].unit_price_cents, 900);
    assert_eq!(lines[0].subtotal_cents, 2700);
    assert_eq!(lines[1], line(PRODUCT, 2, 500));
    assert_eq!(lines[2], line("x", 1, 700));
}

#[test]
fn undiscounted_line_keeps_its_subtotal() {
    let mut l = line(PRODUCT, 3, 1000);
    l.subtotal_cents = 2999;
    let lines = apply_cart_discounts(vec![l.clone()], &vec![Some(-4)]);
    assert_eq!(lines[0], l);
}

#[test]
fn cart_total_sums_subtotals() {
    assert_eq!(cart_total(&vec![]), 0);
    assert_eq!(cart_total(&vec![line(PRODUCT, 2, 150), line(PRODUCT, 1, 99)]), 399);
}

#[test]
fn priced_cart_totals_discounted_lines() {
    let cart = get_cart(77, vec![line(PRODUCT, 2, 1000), line(PRODUCT, 1, 500)], &vec![Some(5), None]);
    assert_eq!(cart.cart_id, 77);
    assert_eq!(cart.items[0].subtotal_cents, 1900);
    assert_eq!(cart.total_cents, 2400);
}

#[test]
fn quantity_below_one_is_refused() {
    let e = validate_quantity(0).unwrap_err();
    assert_eq!(e.status, 400);
    assert_eq!(e.message, "Quantity must be at least 1");
    assert!(validate_quantity(-3).is_err());
    assert!(validate_quantity(1).is_ok());
}

#[test]
fn adding_to_an_existing_line_accumulates() {
    assert_eq!(cart_item_write(Some(2), 3), CartItemWrite::SetQuantity(5));
    assert_eq!(cart_item_write(None, 3), CartItemWrite::Insert(3));
}

#[test]
fn adding_twice_equals_adding_the_sum() {
    let first = match cart_item_write(None, 2) {
        CartItemWrite::Insert(q) => q,
        CartItemWrite::SetQuantity(q) => q,
    };
    assert_eq!(cart_item_write(Some(first), 4), CartItemWrite::SetQuantity(6));
}

#[test]
fn missing_user_is_not_found() {
    let e = require_user(false).unwrap_err();
    assert_eq!(e.status, 404);
    assert_eq!(e.message, "User not found");
    assert!(require_user(true).is_ok());
}

#[test]
fn stored_cart_is_reused() {
    assert_eq!(choose_cart_with_id(Some(PRODUCT), 9).unwrap(), CartChoice::Existing(PRODUCT_VALUE));
}

#[test]
fn user_without_cart_gets_a_new_one() {
    assert_eq!(choose_cart_with_id(None, 9).unwrap(), CartChoice::Create(9));
}

#[test]
fn unreadable_stored_cart_id_is_an_internal_error() {
    let e = choose_cart_with_id(Some("zz"), 9).unwrap_err();
    assert_eq!(e.status, 500);
    assert!(!e.message.is_empty());
}

#[test]
fn stored_new_cart_is_found_again() {
    let fresh = 0x1234_5678_9abc_4def_8123_4567_89ab_cdefu128;
    assert_eq!(choose_cart_with_id(None, fresh).unwrap(), CartChoice::Create(fresh));
    let stored = rustecom::ids::uuid_text(fresh);
    assert_eq!(choose_cart_with_id(Some(&stored), 5).unwrap(), CartChoice::Existing(fresh));
}
