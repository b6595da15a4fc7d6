use rustecom::cart::CartItemResponse;
use rustecom::orders::{checkout, checkout_with_ids, create_demo_user_with_id, public_user, DemoUserOutcome};
use rustecom::schema::User;

fn line(product_id: &str, quantity: i64, unit: i64) -> CartItemResponse {
    CartItemResponse {
        product_id: product_id.to_string(),
        title: "T".to_string(),
        quantity,
        unit_price_cents: unit,
        subtotal_cents: quantity * unit,
    }
}

fn user() -> User {
    User {
        id: 42,
        email: "a@b.c".to_string(),
        password_hash: "h".to_string(),
        full_name: None,
        phone: None,
        is_active: false,
        created_at: "t0".to_string(),
        updated_at: "t1".to_string(),
    }
}

#[test]
fn empty_cart_cannot_be_checked_out() {
    let e = checkout_with_ids(1, 77, None, None, &vec![], 2, &vec![]).unwrap_err();
    assert_eq!(e.status, 400);
    assert_eq!(e.message, "Cart is empty");
    assert!(checkout(1, 77, None, None, &vec![]).is_err());
}

#[test]
fn checkout_records_every_line_and_the_total() {
    let items = vec![line("p1", 2, 900), line("p2", 1, 450)];
    let plan = checkout_with_ids(1, 77, Some(3), None, &items, 100, &vec![101, 102]).unwrap();
    assert_eq!(plan.order.id, 100);
    assert_eq!(plan.clear_cart, 77);
    assert_eq!(plan.order.user_id, 1);
    assert_eq!(plan.order.shipping_address_id, Some(3));
    assert_eq!(plan.order.billing_address_id, None);
    assert_eq!(plan.order.status, "pending");
    assert_eq!(plan.order.currency, "USD");
    assert_eq!(plan.order.total_cents, 2250);
    assert_eq!(plan.items.len(), 2);
    assert_eq!(plan.items[0].id, 101);
    assert_eq!(plan.items[0].order_id, 100);
    assert_eq!(plan.items[0].product_id, "p1");
    assert_eq!(plan.items[0].quantity, 2);
    assert_eq!(plan.items[0].unit_price_cents, 900);
    assert_eq!(plan.items[0].subtotal_cents, 1800);
    assert_eq!(plan.items[1].id, 102);
}

#[test]
fn checkout_total_equals_sum_of_order_lines() {
    let items = vec![line("p1", 3, 333), line("p2", 7, 10), line("p3", 1, 1)];
    let plan = checkout(9, 77, None, None, &items).unwrap();
    let sum: i64 = plan.items.iter().map(|i| i.subtotal_cents).sum();
    assert_eq!(plan.order.total_cents, sum);
    assert_eq!(plan.order.id >> 76 & 0xf, 4);
    assert!(plan.items.iter().all(|l| l.id >> 76 & 0xf == 4));
    assert_eq!(plan.clear_cart, 77);
    assert_ne!(plan.items[0].id, plan.items[1].id);
}

#[test]
fn public_user_hides_the_password() {
    let p = public_user(user());
    assert_eq!(p.id, 42);
    assert_eq!(p.email, "a@b.c");
    assert_eq!(p.full_name, None);
    assert!(!p.is_active);
}

#[test]
fn existing_demo_user_is_shown() {
    match create_demo_user_with_id(Some(user()), 7) {
        DemoUserOutcome::Existing(p) => assert_eq!(p.id, 42),
        DemoUserOutcome::Create { .. } => panic!("demo user created twice"),
    }
}

#[test]
fn missing_demo_user_is_created() {
    match create_demo_user_with_id(None, 7) {
        DemoUserOutcome::Create { row, user } => {
            assert_eq!(row.id, 7);
            assert_eq!(row.email, "demo@rustecom.local");
            assert_eq!(row.password_hash, "demo-password-hash");
            assert_eq!(row.full_name, "Demo User");
            assert_eq!(row.phone, "+10000000000");
            assert_eq!(row.is_active, 1);
            assert_eq!(user.id, 7);
            assert_eq!(user.email, "demo@rustecom.local");
            assert_eq!(user.full_name, Some("Demo User".to_string()));
            assert!(user.is_active);
        }
        DemoUserOutcome::Existing(_) => panic!("no demo user existed"),
    }
}

#[test]
fn unknown_user_cannot_check_out() {
    let items = vec![line("p1", 1, 100)];
    let e = rustecom::orders::place_order_with_ids(false, 1, 77, None, None, &items, 2, &vec![3]).unwrap_err();
    assert_eq!(e.status, 404);
    assert_eq!(e.message, "User not found");
    let e = rustecom::orders::place_order(false, 1, 77, None, None, &vec![]).unwrap_err();
    assert_eq!(e.message, "User not found");
}

#[test]
fn known_user_checks_out_a_filled_cart() {
    let e = rustecom::orders::place_order(true, 1, 77, None, None, &vec![]).unwrap_err();
    assert_eq!(e.message, "Cart is empty");
    let items = vec![line("p1", 2, 100)];
    let plan = rustecom::orders::place_order_with_ids(true, 1, 77, None, None, &items, 2, &vec![3]).unwrap();
    assert_eq!(plan.order.total_cents, 200);
}

#[test]
fn order_total_ignores_line_order() {
    let a = vec![line("p1", 2, 100), line("p2", 1, 50)];
    let b = vec![line("p2", 1, 50), line("p1", 2, 100)];
    let pa = checkout_with_ids(1, 77, None, None, &a, 9, &vec![1, 2]).unwrap();
    let pb = checkout_with_ids(1, 77, None, None, &b, 9, &vec![1, 2]).unwrap();
    assert_eq!(pa.order.total_cents, pb.order.total_cents);
}
