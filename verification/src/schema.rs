//! The rows of the store's tables, with every UUID held as its 128-bit value.
use vstd::prelude::*;

verus! {

/// A registered customer.
#[derive(Clone, Debug, PartialEq, Eq)]
pub struct User {
    pub id: u128,
    pub email: String,
    pub password_hash: String,
    pub full_name: Option<String>,
    pub phone: Option<String>,
    pub is_active: bool,
    pub created_at: String,
    pub updated_at: String,
}

/// A postal address of a user.
#[derive(Clone, Debug, PartialEq, Eq)]
pub struct Address {
    pub id: u128,
    pub user_id: u128,
    pub label: String,
    pub line1: String,
    pub line2: Option<String>,
    pub city: String,
    pub region: Option<String>,
    pub postal_code: String,
    pub country: String,
    pub is_default: bool,
    pub created_at: String,
    pub updated_at: String,
}

/// A product category.
#[derive(Clone, Debug, PartialEq, Eq)]
pub struct Category {
    pub id: u128,
    pub slug: String,
    pub name: String,
    pub description: Option<String>,
    pub created_at: String,
    pub updated_at: String,
}

/// A percentage discount, tied to a category, to a price range, or to both.
#[derive(Clone, Debug, PartialEq, Eq)]
pub struct Discount {
    pub id: u128,
    pub name: String,
    pub percent: i64,
    pub category_id: Option<u128>,
    pub min_price_cents: Option<i64>,
    pub max_price_cents: Option<i64>,
    pub active: bool,
    pub created_at: String,
    pub updated_at: String,
}

/// A product of the catalogue; `images` holds the image URLs.
#[derive(Clone, Debug, PartialEq, Eq)]
pub struct Product {
    pub id: u128,
    pub sku: String,
    pub title: String,
    pub description: Option<String>,
    pub price_cents: i64,
    pub currency: String,
    pub active: bool,
    pub images: Vec<String>,
    pub created_at: String,
    pub updated_at: String,
}

/// Membership of a product in a category.
#[derive(Clone, Debug, PartialEq, Eq)]
pub struct ProductCategory {
    pub product_id: u128,
    pub category_id: u128,
}

/// The stock of a product.
#[derive(Clone, Debug, PartialEq, Eq)]
pub struct Inventory {
    pub product_id: u128,
    pub quantity: i64,
    pub reserved: i64,
    pub updated_at: String,
}

/// The shopping cart of a user.
#[derive(Clone, Debug, PartialEq, Eq)]
pub struct Cart {
    pub id: u128,
    pub user_id: u128,
    pub created_at: String,
    pub updated_at: String,
}

/// A product in a cart, with its quantity.
#[derive(Clone, Debug, PartialEq, Eq)]
pub struct CartItem {
    pub cart_id: u128,
    pub product_id: u128,
    pub quantity: i64,
    pub added_at: String,
}

/// A placed order.
#[derive(Clone, Debug, PartialEq, Eq)]
pub struct Order {
    pub id: u128,
    pub user_id: u128,
    pub shipping_address_id: Option<u128>,
    pub billing_address_id: Option<u128>,
    pub status: String,
    pub total_cents: i64,
    pub currency: String,
    pub placed_at: String,
    pub fulfilled_at: Option<String>,
    pub canceled_at: Option<String>,
    pub created_at: String,
    pub updated_at: String,
}

/// A line of a placed order.
#[derive(Clone, Debug, PartialEq, Eq)]
pub struct OrderItem {
    pub id: u128,
    pub order_id: u128,
    pub product_id: u128,
    pub quantity: i64,
    pub unit_price_cents: i64,
    pub subtotal_cents: i64,
}

/// A payment made for an order.
#[derive(Clone, Debug, PartialEq, Eq)]
pub struct Payment {
    pub id: u128,
    pub order_id: u128,
    pub method: String,
    pub provider: Option<String>,
    pub provider_transaction_id: Option<String>,
    pub amount_cents: i64,
    pub status: String,
    pub paid_at: Option<String>,
    pub created_at: String,
    pub updated_at: String,
}

} // verus!
