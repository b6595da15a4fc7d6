//! Carts and checkout: pricing a cart, adding to it, finding it, and
//! turning it into an order.
use vstd::prelude::*;
use crate::error::{ApiError, STATUS_BAD_REQUEST, STATUS_INTERNAL, STATUS_NOT_FOUND};
use crate::ids::{new_uuid, parse_uuid, parses_to, uuid_parse, UUID_V4_BITS, UUID_V4_MASK};
use crate::pricing::{apply_percent, discounted, percent_fits};

verus! {

/// A line of a cart as shown to its owner.
#[derive(Clone, Debug, PartialEq, Eq)]
pub struct CartItemResponse {
    pub product_id: String,
    pub title: String,
    pub quantity: i64,
    pub unit_price_cents: i64,
    pub subtotal_cents: i64,
}

/// A cart with its lines and their total.
#[derive(Clone, Debug, PartialEq, Eq)]
pub struct CartResponse {
    pub cart_id: u128,
    pub items: Vec<CartItemResponse>,
    pub total_cents: i64,
}

/// The line once its best discount percentage is known (`None` where none
/// was looked up): a positive percentage lowers the unit price, and the
/// subtotal becomes the new unit price times the quantity.
pub open spec fn line_after(item: CartItemResponse, percent: Option<i64>) -> CartItemResponse {
    match percent {
        Some(p) => if p > 0 {
            CartItemResponse {
                unit_price_cents: discounted(item.unit_price_cents as int, p as int) as i64,
                subtotal_cents: (discounted(item.unit_price_cents as int, p as int)
                    * item.quantity) as i64,
                ..item
            }
        } else {
            item
        },
        None => item,
    }
}

/// Whether discounting the line stays within `i64`.
pub open spec fn line_fits(item: CartItemResponse, percent: Option<i64>) -> bool {
    match percent {
        Some(p) => p > 0 ==> {
            &&& percent_fits(item.unit_price_cents as int, p as int)
            &&& i64::MIN <= discounted(item.unit_price_cents as int, p as int) * item.quantity
                <= i64::MAX
        },
        None => true,
    }
}

/// The lines of a cart once each is discounted by its percentage.
pub open spec fn lines_after(items: Seq<CartItemResponse>, percents: Seq<Option<i64>>) -> Seq<
    CartItemResponse,
> {
    Seq::new(items.len(), |k: int| line_after(items[k], percents[k]))
}

/// Whether every line can be discounted within `i64`.
pub open spec fn lines_fit(items: Seq<CartItemResponse>, percents: Seq<Option<i64>>) -> bool {
    forall|k: int| 0 <= k < items.len() ==> line_fits(#[trigger] items[k], percents[k])
}

/// The keys under which discounts are looked up for the lines of a cart:
/// the product's UUID where its id parses as one, `None` elsewhere.
pub fn discount_keys(items: &Vec<CartItemResponse>) -> (res: Vec<Option<u128>>)
    ensures
        res@.len() == items@.len(),
        forall|k: int|
            0 <= k < res@.len() ==> match #[trigger] res@[k] {
                Some(v) => parses_to(items@[k].product_id@, v),
                None => uuid_parse(items@[k].product_id@) is Err,
            },
{
    let mut res: Vec<Option<u128>> = Vec::new();
    let mut i: usize = 0;
    while i < items.len()
        invariant
            i <= items.len(),
            res@.len() == i,
            forall|k: int|
                0 <= k < i ==> match #[trigger] res@[k] {
                    Some(v) => parses_to(items@[k].product_id@, v),
                    None => uuid_parse(items@[k].product_id@) is Err,
                },
        decreases items.len() - i,
    {
        let key = match parse_uuid(items[i].product_id.as_str()) {
            Ok(v) => Some(v),
            Err(_) => None,
        };
        res.push(key);
        i += 1;
    }
    res
}

/// Discounts every line of a cart by its percentage (see `line_after`).
pub fn apply_cart_discounts(items: Vec<CartItemResponse>, percents: &Vec<Option<i64>>) -> (res: Vec<
    CartItemResponse,
>)
    requires
        items@.len() == percents@.len(),
        lines_fit(items@, percents@),
    ensures
        res@ == lines_after(items@, percents@),
{
    let ghost before = items@;
    assert(before.len() == items.len());
    let mut res: Vec<CartItemResponse> = Vec::new();
    let mut i: usize = 0;
    for item in it: items
        invariant
            it.seq() == before,
            before.len() <= usize::MAX,
            i == it.index(),
            before.len() == percents@.len(),
            lines_fit(before, percents@),
            res@.len() == i,
            forall|k: int| 0 <= k < i ==> #[trigger] res@[k] == line_after(before[k], percents@[k]),
    {
        let mut item = item;
        assert(item == before[i as int]);
        assert(line_fits(before[i as int], percents@[i as int]));
        match percents[i] {
            Some(p) => {
                if p > 0 {
                    let unit = apply_percent(item.unit_price_cents, p);
                    item.unit_price_cents = unit;
                    item.subtotal_cents = unit * item.quantity;
                }
            },
            None => {},
        }
        res.push(item);
        i += 1;
    }
    assert(res@ =~= lines_after(before, percents@));
    res
}

/// The sum of the subtotals of `items`.
pub open spec fn sum_subtotals(items: Seq<CartItemResponse>) -> int
    decreases items.len(),
{
    if items.len() == 0 {
        0
    } else {
        sum_subtotals(items.drop_last()) + items.last().subtotal_cents
    }
}

/// Whether summing the subtotals of `items` in order stays within `i64`.
pub open spec fn sums_fit(items: Seq<CartItemResponse>) -> bool {
    forall|k: int|
        0 <= k <= items.len() ==> i64::MIN <= #[trigger] sum_subtotals(items.take(k)) <= i64::MAX
}

/// The sum of the subtotals of a cart's lines.
pub fn cart_total(items: &Vec<CartItemResponse>) -> (res: i64)
    requires
        sums_fit(items@),
    ensures
        res == sum_subtotals(items@),
{
    let mut total: i64 = 0;
    let mut i: usize = 0;
    assert(items@.take(0) =~= Seq::<CartItemResponse>::empty());
    while i < items.len()
        invariant
            i <= items.len(),
            sums_fit(items@),
            total == sum_subtotals(items@.take(i as int)),
        decreases items.len() - i,
    {
        assert(items@.take(i + 1).drop_last() == items@.take(i as int));
        assert(i64::MIN <= sum_subtotals(items@.take(i + 1)) <= i64::MAX);
        total = total + items[i].subtotal_cents;
        i += 1;
    }
    assert(items@.take(i as int) == items@);
    total
}

/// Whether `r` shows the cart `cart_id` whose fetched lines are `items`,
/// each discounted by its percentage in `percents`.
pub open spec fn is_cart_view(r: CartResponse, cart_id: u128, items: Seq<CartItemResponse>, percents: Seq<Option<i64>>) -> bool {
    &&& r.cart_id == cart_id
    &&& r.items@ == lines_after(items, percents)
    &&& r.total_cents == sum_subtotals(lines_after(items, percents))
}

/// Law: reading a cart is repeatable: two views of the same cart over the
/// same lines and percentages show the same cart, lines and total.
pub proof fn law_cart_view_repeatable(
    r1: CartResponse,
    r2: CartResponse,
    cart_id: u128,
    items: Seq<CartItemResponse>,
    percents: Seq<Option<i64>>,
)
    requires
        is_cart_view(r1, cart_id, items, percents),
        is_cart_view(r2, cart_id, items, percents),
    ensures
        r1.cart_id == r2.cart_id,
        r1.items@ == r2.items@,
        r1.total_cents == r2.total_cents,
{
}

/// Law: a line with a positive percentage, whatever its quantity, gets the
/// discounted unit price and a subtotal of that price times its quantity;
/// its product, title and quantity stay as they were.
pub proof fn law_discounted_line(item: CartItemResponse, p: i64)
    requires
        p > 0,
        line_fits(item, Some(p)),
    ensures
        line_after(item, Some(p)).unit_price_cents == discounted(item.unit_price_cents as int, p as int),
        line_after(item, Some(p)).subtotal_cents == discounted(item.unit_price_cents as int, p as int)
            * item.quantity,
        line_after(item, Some(p)).quantity == item.quantity,
        line_after(item, Some(p)).product_id == item.product_id,
        line_after(item, Some(p)).title == item.title,
{
}

/// Law: a line with no percentage looked up, or with a percentage of 0 or
/// less, is shown exactly as fetched.
pub proof fn law_undiscounted_line(item: CartItemResponse, percent: Option<i64>)
    requires
        forall|p: i64| percent == Some(p) ==> p <= 0,
    ensures
        line_after(item, percent) == item,
{
}

/// Law: pricing a cart keeps its lines in order, one priced line per
/// fetched line, the `k`-th priced by the `k`-th percentage.
pub proof fn law_lines_priced_one_by_one(items: Seq<CartItemResponse>, percents: Seq<Option<i64>>, k: int)
    requires
        0 <= k < items.len(),
    ensures
        lines_after(items, percents).len() == items.len(),
        lines_after(items, percents)[k] == line_after(items[k], percents[k]),
{
}

proof fn lemma_sum_append(a: Seq<CartItemResponse>, b: Seq<CartItemResponse>)
    ensures
        sum_subtotals(a + b) == sum_subtotals(a) + sum_subtotals(b),
    decreases b.len(),
{
    if b.len() == 0 {
        assert(a + b =~= a);
    } else {
        lemma_sum_append(a, b.drop_last());
        assert((a + b).drop_last() =~= a + b.drop_last());
    }
}

/// Law: a cart's total adds up its lines: the total of two runs of lines
/// is the sum of their totals, one line totals its subtotal, and no lines
/// total 0.
pub proof fn law_total_adds_up(a: Seq<CartItemResponse>, b: Seq<CartItemResponse>, line: CartItemResponse)
    ensures
        sum_subtotals(a + b) == sum_subtotals(a) + sum_subtotals(b),
        sum_subtotals(seq![line]) == line.subtotal_cents,
        sum_subtotals(Seq::empty()) == 0,
{
    lemma_sum_append(a, b);
    assert(seq![line].drop_last() =~= Seq::<CartItemResponse>::empty());
    assert(sum_subtotals(seq![line].drop_last()) == 0);
    assert(seq![line].last() == line);
}

/// Prices a fetched cart: discounts each line by its percentage, then
/// totals the subtotals.
pub fn get_cart(cart_id: u128, items: Vec<CartItemResponse>, percents: &Vec<Option<i64>>) -> (res:
    CartResponse)
    requires
        items@.len() == percents@.len(),
        lines_fit(items@, percents@),
        sums_fit(lines_after(items@, percents@)),
    ensures
        is_cart_view(res, cart_id, items@, percents@),
{
    let items = apply_cart_discounts(items, percents);
    let total_cents = cart_total(&items);
    CartResponse { cart_id, items, total_cents }
}

/// Refuses a quantity below 1.
pub fn validate_quantity(quantity: i64) -> (res: Result<(), ApiError>)
    ensures
        res is Ok <==> quantity >= 1,
        res matches Err(e) ==> e.status == STATUS_BAD_REQUEST && e.message@
            == "Quantity must be at least 1"@,
{
    if quantity < 1 {
        return Err(ApiError::bad_request(String::from_str("Quantity must be at least 1")));
    }
    Ok(())
}

/// How a product's line in a cart is written when some of it is added.
#[derive(Clone, Copy, Debug, PartialEq, Eq)]
pub enum CartItemWrite {
    /// The line exists: set its quantity.
    SetQuantity(i64),
    /// No line yet: insert one with this quantity.
    Insert(i64),
}

/// The quantity a line holds once `w` is written.
pub open spec fn written_quantity(w: CartItemWrite) -> int {
    match w {
        CartItemWrite::SetQuantity(q) => q as int,
        CartItemWrite::Insert(q) => q as int,
    }
}

/// Adds `quantity` of a product to a cart whose line for it holds
/// `existing` (`None` where there is no line).
pub fn cart_item_write(existing: Option<i64>, quantity: i64) -> (res: CartItemWrite)
    requires
        existing matches Some(q) ==> i64::MIN <= q + quantity <= i64::MAX,
    ensures
        existing is Some <==> res is SetQuantity,
        written_quantity(res) == quantity_after_add(
            match existing {
                Some(q) => Some(q as int),
                None => None,
            },
            quantity as int,
        ),
{
    match existing {
        Some(q) => CartItemWrite::SetQuantity(q + quantity),
        None => CartItemWrite::Insert(quantity),
    }
}

/// The quantity a cart line holds after `quantity` is added to a line
/// holding `existing` (`None` where there is no line).
pub open spec fn quantity_after_add(existing: Option<int>, quantity: int) -> int {
    match existing {
        Some(q) => q + quantity,
        None => quantity,
    }
}

/// Law: adding to a cart accumulates: adding `a` and then `b` leaves the
/// line holding what adding `a + b` at once leaves, and a line that did not
/// exist ends with exactly what was added.
pub proof fn law_add_accumulates(existing: Option<int>, a: int, b: int)
    ensures
        quantity_after_add(Some(quantity_after_add(existing, a)), b) == quantity_after_add(
            existing,
            a + b,
        ),
        quantity_after_add(None, a) == a,
{
}

/// Refuses a user that does not exist.
pub fn require_user(user_exists: bool) -> (res: Result<(), ApiError>)
    ensures
        res is Ok <==> user_exists,
        res matches Err(e) ==> e.status == STATUS_NOT_FOUND && e.message@ == "User not found"@,
{
    if !user_exists {
        return Err(ApiError::not_found(String::from_str("User not found")));
    }
    Ok(())
}

/// Which cart serves a user.
#[derive(Clone, Copy, Debug, PartialEq, Eq)]
pub enum CartChoice {
    /// The user's stored cart.
    Existing(u128),
    /// A new cart to create under this id.
    Create(u128),
}

/// The cart that serves a user whose stored cart id reads `stored` (`None`
/// where the user has none), a new cart getting the id `fresh`: the stored
/// cart where its id parses, a new one where there is none, and otherwise
/// the parse error's text.
pub open spec fn chosen_cart(stored: Option<Seq<char>>, fresh: u128) -> Result<CartChoice, Seq<char>> {
    match stored {
        None => Ok(CartChoice::Create(fresh)),
        Some(s) => match uuid_parse(s) {
            Ok(v) => Ok(CartChoice::Existing(v)),
            Err(m) => Err(m),
        },
    }
}

/// Law: a cart is created once: a user with no cart gets a new one, and
/// once that cart is stored under the text of its id, the user is served
/// that same cart from then on.
pub proof fn law_cart_found_again(fresh: u128, stored_text: Seq<char>, later_fresh: u128)
    requires
        parses_to(stored_text, fresh),
    ensures
        chosen_cart(None, fresh) == Ok::<CartChoice, Seq<char>>(CartChoice::Create(fresh)),
        chosen_cart(Some(stored_text), later_fresh) == Ok::<CartChoice, Seq<char>>(
            CartChoice::Existing(fresh),
        ),
{
}

/// Law: a stored cart id that does not parse never leads to a new cart:
/// the request fails with the parse error's text.
pub proof fn law_unreadable_cart_id_fails(stored_text: Seq<char>, fresh: u128)
    requires
        uuid_parse(stored_text) is Err,
    ensures
        chosen_cart(Some(stored_text), fresh) == Err::<CartChoice, Seq<char>>(uuid_parse(stored_text)->Err_0),
{
}

/// Chooses the cart of a user whose stored cart id is `stored` (`None`
/// where the user has none); `fresh` is the id a new cart gets.
pub fn choose_cart_with_id(stored: Option<&str>, fresh: u128) -> (res: Result<CartChoice, ApiError>)
    ensures
        match chosen_cart(
            match stored {
                Some(s) => Some(s@),
                None => None,
            },
            fresh,
        ) {
            Ok(c) => res == Ok::<CartChoice, ApiError>(c),
            Err(m) => res matches Err(e) && e.status == STATUS_INTERNAL && e.message@ == m,
        },
        match stored {
            None => res == Ok::<CartChoice, ApiError>(CartChoice::Create(fresh)),
            Some(s) => match uuid_parse(s@) {
                Ok(v) => res == Ok::<CartChoice, ApiError>(CartChoice::Existing(v)),
                Err(m) => res matches Err(e) && e.status == STATUS_INTERNAL && e.message@ == m,
            },
        },
{
    match stored {
        None => Ok(CartChoice::Create(fresh)),
        Some(s) => match parse_uuid(s) {
            Ok(v) => Ok(CartChoice::Existing(v)),
            Err(m) => Err(ApiError::internal(m)),
        },
    }
}

/// Chooses the cart of a user whose stored cart id is `stored`; a new
/// cart gets a random id.
pub fn choose_cart(stored: Option<&str>) -> (res: Result<CartChoice, ApiError>)
    ensures
        match stored {
            None => res matches Ok(CartChoice::Create(v)) && v & UUID_V4_MASK == UUID_V4_BITS,
            Some(s) => match uuid_parse(s@) {
                Ok(v) => res == Ok::<CartChoice, ApiError>(CartChoice::Existing(v)),
                Err(m) => res matches Err(e) && e.status == STATUS_INTERNAL && e.message@ == m,
            },
        },
{
    match stored {
        None => choose_cart_with_id(stored, new_uuid()),
        Some(_) => choose_cart_with_id(stored, 0),
    }
}

} // verus!
