use rustecom::catalog::{
    default_limit, has_more, like_pattern, list_products, page_limit, page_offset, paginate, ListProductsQuery,
};
use rustecom::schema::Product;
use rustecom::sql::SqlValue;

fn query() -> ListProductsQuery {
    ListProductsQuery { limit: 20, offset: 0, category_id: None, min_price: None, max_price: None, search: None }
}

fn product(price: i64) -> Product {
    Product {
        id: 5,
        sku: "S".to_string(),
        title: "T".to_string(),
        description: None,
        price_cents: price,
        currency: "USD".to_string(),
        active: true,
        images: vec![],
        created_at: String::new(),
        updated_at: String::new(),
    }
}

#[test]
fn default_page_size_is_twenty() {
    assert_eq!(default_limit(), 20);
}

#[test]
fn page_size_is_clamped_to_one_through_hundred() {
    assert_eq!(page_limit(0), 1);
    assert_eq!(page_limit(-7), 1);
    assert_eq!(page_limit(1), 1);
    assert_eq!(page_limit(37), 37);
    assert_eq!(page_limit(100), 100);
    assert_eq!(page_limit(500), 100);
}

#[test]
fn negative_offset_counts_as_zero() {
    assert_eq!(page_offset(-5), 0);
    assert_eq!(page_offset(0), 0);
    assert_eq!(page_offset(40), 40);
}

#[test]
fn search_wildcards_are_escaped() {
    assert_eq!(like_pattern("50%_off"), "%50\\%\\_off%");
    assert_eq!(like_pattern(""), "%%");
    assert_eq!(like_pattern("mug"), "%mug%");
    assert_eq!(like_pattern("100%"), "%100\\%%");
    assert_eq!(like_pattern("a\\b"), "%a\\\\b%");
}

#[test]
fn unfiltered_listing_queries() {
    let plan = list_products(&query());
    assert_eq!(plan.limit, 20);
    assert_eq!(plan.offset, 0);
    assert_eq!(
        plan.queries.items.sql,
        "SELECT p.* FROM products p LEFT JOIN product_categories pc ON p.id = pc.product_id WHERE p.active = 1 GROUP BY p.id ORDER BY p.title LIMIT ? OFFSET ?"
    );
    assert_eq!(plan.queries.items.binds, vec![SqlValue::Int(20), SqlValue::Int(0)]);
    assert_eq!(
        plan.queries.count.sql,
        "SELECT COUNT(DISTINCT p.id) FROM products p LEFT JOIN product_categories pc ON p.id = pc.product_id WHERE p.active = 1"
    );
    assert!(plan.queries.count.binds.is_empty());
}

#[test]
fn filtered_listing_queries() {
    let q = ListProductsQuery {
        limit: 1000,
        offset: -3,
        category_id: Some("cat-1".to_string()),
        min_price: Some(1000),
        max_price: Some(5000),
        search: Some("a_b".to_string()),
    };
    let plan = list_products(&q);
    assert_eq!(plan.limit, 100);
    assert_eq!(plan.offset, 0);
    let filters = " AND pc.category_id = ? AND p.price_cents >= ? AND p.price_cents <= ? AND (p.title LIKE ? ESCAPE '\\' OR p.description LIKE ? ESCAPE '\\')";
    assert_eq!(
        plan.queries.count.sql,
        format!("SELECT COUNT(DISTINCT p.id) FROM products p LEFT JOIN product_categories pc ON p.id = pc.product_id WHERE p.active = 1{}", filters)
    );
    assert_eq!(
        plan.queries.items.sql,
        format!("SELECT p.* FROM products p LEFT JOIN product_categories pc ON p.id = pc.product_id WHERE p.active = 1{} GROUP BY p.id ORDER BY p.title LIMIT ? OFFSET ?", filters)
    );
    let binds = vec![
        SqlValue::Text("cat-1".to_string()),
        SqlValue::Int(1000),
        SqlValue::Int(5000),
        SqlValue::Text("%a\\_b%".to_string()),
        SqlValue::Text("%a\\_b%".to_string()),
    ];
    assert_eq!(plan.queries.count.binds, binds);
    let mut with_page = binds.clone();
    with_page.push(SqlValue::Int(100));
    with_page.push(SqlValue::Int(0));
    assert_eq!(plan.queries.items.binds, with_page);
}

#[test]
fn has_more_when_products_remain_after_the_page() {
    assert!(has_more(0, 20, 21));
    assert!(!has_more(0, 20, 20));
    assert!(!has_more(40, 20, 45));
}

#[test]
fn page_charges_each_product_its_best_discount() {
    let page = paginate(vec![product(1000), product(6000), product(700)], &vec![10, 0, -5], 50, 3, 0);
    let prices: Vec<i64> = page.items.iter().map(|p| p.price_cents).collect();
    assert_eq!(prices, vec![900, 6000, 700]);
    assert_eq!(page.total, 50);
    assert_eq!(page.limit, 3);
    assert_eq!(page.offset, 0);
    assert!(page.has_more);
}
