//! Checkout, and the demo customer.
use vstd::prelude::*;
use crate::cart::{cart_total, lines_after, sum_subtotals, sums_fit, CartItemResponse};
use crate::error::{ApiError, STATUS_BAD_REQUEST, STATUS_NOT_FOUND};
use crate::cart::require_user;
use crate::ids::{new_uuid, UUID_V4_BITS, UUID_V4_MASK};
use crate::schema::User;

verus! {

/// The order row written at checkout.
#[derive(Clone, Debug, PartialEq, Eq)]
pub struct OrderRow {
    pub id: u128,
    pub user_id: u128,
    pub shipping_address_id: Option<u128>,
    pub billing_address_id: Option<u128>,
    pub status: String,
    pub total_cents: i64,
    pub currency: String,
}

/// An order line row written at checkout.
#[derive(Clone, Debug, PartialEq, Eq)]
pub struct OrderItemRow {
    pub id: u128,
    pub order_id: u128,
    pub product_id: String,
    pub quantity: i64,
    pub unit_price_cents: i64,
    pub subtotal_cents: i64,
}

/// Everything checkout writes: the order, one line per cart line, and the
/// cart whose lines are then removed.
#[derive(Clone, Debug, PartialEq, Eq)]
pub struct CheckoutPlan {
    pub order: OrderRow,
    pub items: Vec<OrderItemRow>,
    /// The cart emptied once the order is written.
    pub clear_cart: u128,
}

/// The order line that records cart line `item` under `id` in order `order_id`.
pub open spec fn order_line(item: CartItemResponse, id: u128, order_id: u128) -> OrderItemRow {
    OrderItemRow {
        id,
        order_id,
        product_id: item.product_id,
        quantity: item.quantity,
        unit_price_cents: item.unit_price_cents,
        subtotal_cents: item.subtotal_cents,
    }
}

/// The sum of the subtotals of order lines.
pub open spec fn sum_line_subtotals(lines: Seq<OrderItemRow>) -> int
    decreases lines.len(),
{
    if lines.len() == 0 {
        0
    } else {
        sum_line_subtotals(lines.drop_last()) + lines.last().subtotal_cents
    }
}

/// Whether `plan` checks out the (already discounted) cart lines `items` of
/// `user_id` as order `order_id`, its lines numbered by `item_ids`, and
/// then empties the cart `cart_id`.
pub open spec fn is_checkout_of(
    plan: CheckoutPlan,
    user_id: u128,
    cart_id: u128,
    shipping: Option<u128>,
    billing: Option<u128>,
    items: Seq<CartItemResponse>,
    order_id: u128,
    item_ids: Seq<u128>,
) -> bool {
    &&& plan.clear_cart == cart_id
    &&& plan.order.id == order_id
    &&& plan.order.user_id == user_id
    &&& plan.order.shipping_address_id == shipping
    &&& plan.order.billing_address_id == billing
    &&& plan.order.status@ == "pending"@
    &&& plan.order.currency@ == "USD"@
    &&& plan.order.total_cents == sum_subtotals(items)
    &&& plan.items@.len() == items.len()
    &&& forall|k: int|
        0 <= k < items.len() ==> #[trigger] plan.items@[k] == order_line(
            items[k],
            item_ids[k],
            order_id,
        )
}

proof fn lemma_line_sums(items: Seq<CartItemResponse>, lines: Seq<OrderItemRow>, ids: Seq<u128>, order_id: u128)
    requires
        lines.len() == items.len(),
        ids.len() == items.len(),
        forall|k: int| 0 <= k < items.len() ==> #[trigger] lines[k] == order_line(items[k], ids[k], order_id),
    ensures
        sum_line_subtotals(lines) == sum_subtotals(items),
    decreases items.len(),
{
    if items.len() > 0 {
        lemma_line_sums(items.drop_last(), lines.drop_last(), ids.drop_last(), order_id);
        assert(lines.last() == order_line(items.last(), ids.last(), order_id));
    }
}

/// Turns the (already discounted) cart lines `items` of `user_id` into an
/// order `order_id` whose lines get the ids `item_ids`; an empty cart
/// cannot be checked out.
pub fn checkout_with_ids(
    user_id: u128,
    cart_id: u128,
    shipping: Option<u128>,
    billing: Option<u128>,
    items: &Vec<CartItemResponse>,
    order_id: u128,
    item_ids: &Vec<u128>,
) -> (res: Result<CheckoutPlan, ApiError>)
    requires
        item_ids@.len() == items@.len(),
        sums_fit(items@),
    ensures
        items@.len() == 0 <==> res is Err,
        res matches Err(e) ==> e.status == STATUS_BAD_REQUEST && e.message@ == "Cart is empty"@,
        res matches Ok(plan) ==> is_checkout_of(plan, user_id, cart_id, shipping, billing, items@, order_id, item_ids@),
        res matches Ok(plan) ==> plan.order.total_cents == sum_line_subtotals(plan.items@),
{
    if items.len() == 0 {
        return Err(ApiError::bad_request(String::from_str("Cart is empty")));
    }
    let total_cents = cart_total(items);
    let mut lines: Vec<OrderItemRow> = Vec::new();
    let mut i: usize = 0;
    while i < items.len()
        invariant
            i <= items.len(),
            item_ids@.len() == items@.len(),
            lines@.len() == i,
            forall|k: int|
                0 <= k < i ==> #[trigger] lines@[k] == order_line(items@[k], item_ids@[k], order_id),
        decreases items.len() - i,
    {
        let item = &items[i];
        lines.push(
            OrderItemRow {
                id: item_ids[i],
                order_id,
                product_id: item.product_id.clone(),
                quantity: item.quantity,
                unit_price_cents: item.unit_price_cents,
                subtotal_cents: item.subtotal_cents,
            },
        );
        i += 1;
    }
    proof {
        lemma_line_sums(items@, lines@, item_ids@, order_id);
    }
    let order = OrderRow {
        id: order_id,
        user_id,
        shipping_address_id: shipping,
        billing_address_id: billing,
        status: String::from_str("pending"),
        total_cents,
        currency: String::from_str("USD"),
    };
    Ok(CheckoutPlan { order, items: lines, clear_cart: cart_id })
}

/// Turns the (already discounted) cart lines `items` of `user_id` into an
/// order; the order and each of its lines get random ids.
pub fn checkout(
    user_id: u128,
    cart_id: u128,
    shipping: Option<u128>,
    billing: Option<u128>,
    items: &Vec<CartItemResponse>,
) -> (res:
    Result<CheckoutPlan, ApiError>)
    requires
        sums_fit(items@),
    ensures
        items@.len() == 0 <==> res is Err,
        res matches Err(e) ==> e.status == STATUS_BAD_REQUEST && e.message@ == "Cart is empty"@,
        res matches Ok(plan) ==> exists|order_id: u128, item_ids: Seq<u128>|
            is_checkout_of(plan, user_id, cart_id, shipping, billing, items@, order_id, item_ids),
        res matches Ok(plan) ==> plan.order.id & UUID_V4_MASK == UUID_V4_BITS,
        res matches Ok(plan) ==> forall|k: int|
            0 <= k < plan.items@.len() ==> (#[trigger] plan.items@[k]).id & UUID_V4_MASK == UUID_V4_BITS,
{
    let order_id = if items.len() == 0 { 0 } else { new_uuid() };
    let mut item_ids: Vec<u128> = Vec::new();
    let mut i: usize = 0;
    while i < items.len()
        invariant
            i <= items.len(),
            item_ids@.len() == i,
            forall|k: int| 0 <= k < i ==> #[trigger] item_ids@[k] & UUID_V4_MASK == UUID_V4_BITS,
        decreases items.len() - i,
    {
        item_ids.push(new_uuid());
        i += 1;
    }
    let res = checkout_with_ids(user_id, cart_id, shipping, billing, items, order_id, &item_ids);
    proof {
        if res is Ok {
            assert(is_checkout_of(res->Ok_0, user_id, cart_id, shipping, billing, items@, order_id, item_ids@));
            assert forall|k: int| 0 <= k < res->Ok_0.items@.len() implies (#[trigger] res->Ok_0.items@[k]).id
                & UUID_V4_MASK == UUID_V4_BITS by {
                assert(res->Ok_0.items@[k] == order_line(items@[k], item_ids@[k], order_id));
            }
        }
    }
    res
}

/// Decides a checkout as a whole, with the ids the order and its lines
/// get: an unknown user is refused first, then an empty cart; otherwise the
/// (already discounted) cart lines `items` become the order.
pub fn place_order_with_ids(
    user_exists: bool,
    user_id: u128,
    cart_id: u128,
    shipping: Option<u128>,
    billing: Option<u128>,
    items: &Vec<CartItemResponse>,
    order_id: u128,
    item_ids: &Vec<u128>,
) -> (res: Result<CheckoutPlan, ApiError>)
    requires
        item_ids@.len() == items@.len(),
        sums_fit(items@),
    ensures
        res is Ok <==> user_exists && items@.len() > 0,
        !user_exists ==> (res matches Err(e) && e.status == STATUS_NOT_FOUND && e.message@
            == "User not found"@),
        user_exists && items@.len() == 0 ==> (res matches Err(e) && e.status == STATUS_BAD_REQUEST
            && e.message@ == "Cart is empty"@),
        res matches Ok(plan) ==> is_checkout_of(plan, user_id, cart_id, shipping, billing, items@, order_id, item_ids@),
{
    require_user(user_exists)?;
    checkout_with_ids(user_id, cart_id, shipping, billing, items, order_id, item_ids)
}

/// Decides a checkout as a whole (see `place_order_with_ids`); the order
/// and its lines get random ids.
pub fn place_order(
    user_exists: bool,
    user_id: u128,
    cart_id: u128,
    shipping: Option<u128>,
    billing: Option<u128>,
    items: &Vec<CartItemResponse>,
) -> (res: Result<CheckoutPlan, ApiError>)
    requires
        sums_fit(items@),
    ensures
        res is Ok <==> user_exists && items@.len() > 0,
        !user_exists ==> (res matches Err(e) && e.status == STATUS_NOT_FOUND && e.message@
            == "User not found"@),
        user_exists && items@.len() == 0 ==> (res matches Err(e) && e.status == STATUS_BAD_REQUEST
            && e.message@ == "Cart is empty"@),
        res matches Ok(plan) ==> exists|order_id: u128, item_ids: Seq<u128>|
            is_checkout_of(plan, user_id, cart_id, shipping, billing, items@, order_id, item_ids),
        res matches Ok(plan) ==> plan.order.id & UUID_V4_MASK == UUID_V4_BITS,
        res matches Ok(plan) ==> forall|k: int|
            0 <= k < plan.items@.len() ==> (#[trigger] plan.items@[k]).id & UUID_V4_MASK == UUID_V4_BITS,
{
    require_user(user_exists)?;
    checkout(user_id, cart_id, shipping, billing, items)
}

/// The part of a user shown to clients.
#[derive(Clone, Debug, PartialEq, Eq)]
pub struct PublicUser {
    pub id: u128,
    pub email: String,
    pub full_name: Option<String>,
    pub is_active: bool,
}

/// The public part of `user`.
pub fn public_user(user: User) -> (res: PublicUser)
    ensures
        res.id == user.id,
        res.email == user.email,
        res.full_name == user.full_name,
        res.is_active == user.is_active,
{
    PublicUser { id: user.id, email: user.email, full_name: user.full_name, is_active: user.is_active }
}

/// The row that creates a user.
#[derive(Clone, Debug, PartialEq, Eq)]
pub struct NewUserRow {
    pub id: u128,
    pub email: String,
    pub password_hash: String,
    pub full_name: String,
    pub phone: String,
    pub is_active: i64,
}

/// The e-mail address of the demo customer.
pub open spec fn demo_email() -> Seq<char> {
    "demo@rustecom.local"@
}

/// The e-mail address the demo customer is looked up by.
pub fn demo_user_email() -> (res: String)
    ensures
        res@ == demo_email(),
{
    String::from_str("demo@rustecom.local")
}

/// What answering a demo-customer request takes.
#[derive(Clone, Debug, PartialEq, Eq)]
pub enum DemoUserOutcome {
    /// The demo customer exists: show it.
    Existing(PublicUser),
    /// Create the demo customer with `row`, then show `user`.
    Create { row: NewUserRow, user: PublicUser },
}

/// Whether `out` answers a demo-customer request where the lookup by the
/// demo e-mail found `existing`, a new customer getting the id `id`.
pub open spec fn is_demo_outcome(existing: Option<User>, id: u128, out: DemoUserOutcome) -> bool {
    match existing {
        Some(u) => out == DemoUserOutcome::Existing(
            PublicUser { id: u.id, email: u.email, full_name: u.full_name, is_active: u.is_active },
        ),
        None => match out {
            DemoUserOutcome::Create { row, user } => {
                &&& row.id == id
                &&& row.email@ == demo_email()
                &&& row.password_hash@ == "demo-password-hash"@
                &&& row.full_name@ == "Demo User"@
                &&& row.phone@ == "+10000000000"@
                &&& row.is_active == 1
                &&& user.id == id
                &&& user.email@ == demo_email()
                &&& user.full_name matches Some(n) && n@ == "Demo User"@
                &&& user.is_active
            },
            DemoUserOutcome::Existing(_) => false,
        },
    }
}

/// Answers a demo-customer request where the lookup found `existing`; a
/// new demo customer gets the id `id`.
pub fn create_demo_user_with_id(existing: Option<User>, id: u128) -> (res: DemoUserOutcome)
    ensures
        is_demo_outcome(existing, id, res),
{
    match existing {
        Some(u) => DemoUserOutcome::Existing(public_user(u)),
        None => {
            let row = NewUserRow {
                id,
                email: demo_user_email(),
                password_hash: String::from_str("demo-password-hash"),
                full_name: String::from_str("Demo User"),
                phone: String::from_str("+10000000000"),
                is_active: 1,
            };
            let user = PublicUser {
                id,
                email: demo_user_email(),
                full_name: Some(String::from_str("Demo User")),
                is_active: true,
            };
            DemoUserOutcome::Create { row, user }
        },
    }
}

/// Answers a demo-customer request where the lookup found `existing`; a
/// new demo customer gets a random id.
pub fn create_demo_user(existing: Option<User>) -> (res: DemoUserOutcome)
    ensures
        existing is Some ==> is_demo_outcome(existing, 0, res),
        existing is None ==> exists|id: u128| id & UUID_V4_MASK == UUID_V4_BITS && is_demo_outcome(existing, id, res),
{
    let id = if existing.is_some() { 0 } else { new_uuid() };
    create_demo_user_with_id(existing, id)
}

proof fn lemma_sum_remove(s: Seq<CartItemResponse>, i: int)
    requires
        0 <= i < s.len(),
    ensures
        sum_subtotals(s) == sum_subtotals(s.remove(i)) + s[i].subtotal_cents,
    decreases s.len(),
{
    if i == s.len() - 1 {
        assert(s.remove(i) =~= s.drop_last());
    } else {
        lemma_sum_remove(s.drop_last(), i);
        assert(s.remove(i).drop_last() =~= s.drop_last().remove(i));
        assert(s.remove(i).last() == s.last());
    }
}

/// Law: a total does not depend on the order of the lines: two sequences
/// holding the same lines, in any order, sum to the same total.
pub proof fn law_total_ignores_line_order(a: Seq<CartItemResponse>, b: Seq<CartItemResponse>)
    requires
        a.to_multiset() == b.to_multiset(),
    ensures
        sum_subtotals(a) == sum_subtotals(b),
    decreases a.len(),
{
    broadcast use vstd::seq_lib::group_to_multiset_ensures;

    if a.len() == 0 {
        assert(a.to_multiset().len() == a.len());
        assert(b.to_multiset().len() == b.len());
        assert(b.len() == 0);
    } else {
        let x = a.last();
        assert(a == a.drop_last().push(x));
        assert(a.to_multiset() == a.drop_last().to_multiset().insert(x));
        assert(a.to_multiset().count(x) > 0);
        assert(b.contains(x));
        let j = choose|j: int| 0 <= j < b.len() && b[j] == x;
        assert(b.remove(j).to_multiset() == b.to_multiset().remove(x));
        assert(b.remove(j).to_multiset() =~= a.drop_last().to_multiset());
        law_total_ignores_line_order(a.drop_last(), b.remove(j));
        lemma_sum_remove(b, j);
    }
}

/// Law: checking out charges what the cart shows: where the order is made
/// from the same priced lines the cart view shows, in any order, the order
/// total equals the cart view's total, and so does the sum of the order's
/// lines.
pub proof fn law_checkout_charges_cart_total(
    plan: CheckoutPlan,
    user_id: u128,
    cart_id: u128,
    shipping: Option<u128>,
    billing: Option<u128>,
    cart_lines: Seq<CartItemResponse>,
    order_lines: Seq<CartItemResponse>,
    order_id: u128,
    item_ids: Seq<u128>,
)
    requires
        is_checkout_of(plan, user_id, cart_id, shipping, billing, order_lines, order_id, item_ids),
        item_ids.len() == order_lines.len(),
        order_lines.to_multiset() == cart_lines.to_multiset(),
    ensures
        plan.order.total_cents == sum_subtotals(cart_lines),
        sum_line_subtotals(plan.items@) == sum_subtotals(cart_lines),
        plan.clear_cart == cart_id,
{
    law_total_ignores_line_order(order_lines, cart_lines);
    lemma_line_sums(order_lines, plan.items@, item_ids, order_id);
}

/// Law: the demo customer is created once: once created (and stored as
/// created), a later request finds it and shows the same customer.
pub proof fn law_demo_user_created_once(
    id: u128,
    row: NewUserRow,
    user: PublicUser,
    stored: User,
    later_id: u128,
    later: DemoUserOutcome,
)
    requires
        is_demo_outcome(None, id, DemoUserOutcome::Create { row, user }),
        stored.id == row.id,
        stored.email@ == row.email@,
        stored.full_name matches Some(n) && n@ == row.full_name@,
        stored.is_active == (row.is_active != 0),
        is_demo_outcome(Some(stored), later_id, later),
    ensures
        later matches DemoUserOutcome::Existing(p) && p.id == user.id && p.email@ == user.email@
            && p.is_active == user.is_active && (p.full_name matches Some(n) && n@ == "Demo User"@),
{
}

/// Law: once checkout has emptied a cart, the cart shows no lines and a
/// total of 0.
pub proof fn law_emptied_cart_shows_nothing()
    ensures
        lines_after(Seq::empty(), Seq::empty()).len() == 0,
        sum_subtotals(lines_after(Seq::empty(), Seq::empty())) == 0,
{
    assert(lines_after(Seq::empty(), Seq::empty()) =~= Seq::<CartItemResponse>::empty());
}

/// Law: an order made at checkout is pending, in US dollars, placed for
/// the user with the given addresses, totals the cart lines, and holds one
/// line per cart line, in order, carrying that line's product, quantity,
/// unit price and subtotal under the order's id.
pub proof fn law_order_records_the_cart(
    plan: CheckoutPlan,
    user_id: u128,
    cart_id: u128,
    shipping: Option<u128>,
    billing: Option<u128>,
    items: Seq<CartItemResponse>,
    order_id: u128,
    item_ids: Seq<u128>,
    k: int,
)
    requires
        is_checkout_of(plan, user_id, cart_id, shipping, billing, items, order_id, item_ids),
        0 <= k < items.len(),
    ensures
        plan.order.status@ == "pending"@,
        plan.order.currency@ == "USD"@,
        plan.order.user_id == user_id,
        plan.order.shipping_address_id == shipping,
        plan.order.billing_address_id == billing,
        plan.order.total_cents == sum_subtotals(items),
        plan.items@.len() == items.len(),
        plan.items@[k].order_id == plan.order.id,
        plan.items@[k].id == item_ids[k],
        plan.items@[k].product_id == items[k].product_id,
        plan.items@[k].quantity == items[k].quantity,
        plan.items@[k].unit_price_cents == items[k].unit_price_cents,
        plan.items@[k].subtotal_cents == items[k].subtotal_cents,
        plan.clear_cart == cart_id,
{
    assert(plan.items@[k] == order_line(items[k], item_ids[k], order_id));
}

/// Law: a demo-customer request shows the customer found by the demo
/// e-mail as it is; where none is found it creates the demo customer
/// (demo e-mail, name "Demo User", phone "+10000000000", active) under the
/// new id and shows that customer.
pub proof fn law_demo_user_outcome(existing: Option<User>, id: u128, out: DemoUserOutcome)
    requires
        is_demo_outcome(existing, id, out),
    ensures
        existing matches Some(u) ==> (out matches DemoUserOutcome::Existing(p) && p.id == u.id && p.email
            == u.email && p.full_name == u.full_name && p.is_active == u.is_active),
        existing is None ==> (out matches DemoUserOutcome::Create { row, user } && row.id == id && user.id
            == id && row.email@ == "demo@rustecom.local"@ && user.email@ == "demo@rustecom.local"@
            && row.full_name@ == "Demo User"@ && row.phone@ == "+10000000000"@ && row.password_hash@
            == "demo-password-hash"@ && row.is_active == 1 && user.is_active),
{
}

} // verus!
