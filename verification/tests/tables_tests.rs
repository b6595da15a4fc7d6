use rustecom::tables::{
    body_not_object, create_table_row, created_row_id, delete_outcome, delete_table_row, generated_row_id,
    generated_row_id_with, get_table_meta, get_table_row, list_table, parse_pk_values, require_table,
    row_not_found, table_metadata, update_table_row,
};
use rustecom::sql::SqlValue;

fn keys(list: &[&str]) -> Vec<String> {
    list.iter().map(|s| s.to_string()).collect()
}

#[test]
fn users_table_metadata() {
    let meta = get_table_meta("users").unwrap();
    assert_eq!(meta.name, "users");
    assert_eq!(
        meta.columns,
        keys(&["id", "email", "password_hash", "full_name", "phone", "is_active", "created_at", "updated_at"])
    );
    assert_eq!(meta.pk, keys(&["id"]));
}

#[test]
fn composite_key_tables() {
    assert_eq!(get_table_meta("product_categories").unwrap().pk, keys(&["product_id", "category_id"]));
    assert_eq!(get_table_meta("cart_items").unwrap().pk, keys(&["cart_id", "product_id"]));
}

#[test]
fn unknown_table_has_no_metadata() {
    assert!(get_table_meta("secrets").is_none());
    assert!(get_table_meta("Users").is_none());
    let e = require_table("secrets").unwrap_err();
    assert_eq!(e.status, 400);
    assert_eq!(e.message, "Unknown table");
}

#[test]
fn every_listed_table_is_found_by_name() {
    let all = table_metadata();
    assert_eq!(all.len(), 12);
    for meta in all.iter() {
        assert_eq!(&get_table_meta(&meta.name).unwrap(), meta);
        for key in meta.pk.iter() {
            assert!(meta.columns.contains(key));
        }
    }
}

#[test]
fn key_values_are_split_on_commas_and_trimmed() {
    let meta = get_table_meta("product_categories").unwrap();
    assert_eq!(parse_pk_values(" a , b\t", &meta), Some(keys(&["a", "b"])));
    assert_eq!(parse_pk_values("a", &meta), None);
    assert_eq!(parse_pk_values("a,b,c", &meta), None);
    assert_eq!(parse_pk_values(",", &meta), Some(keys(&["", ""])));
    let users = get_table_meta("users").unwrap();
    assert_eq!(parse_pk_values("", &users), Some(keys(&[""])));
    assert_eq!(parse_pk_values("x,y", &users), None);
}

#[test]
fn created_key_reads_back() {
    let meta = get_table_meta("cart_items").unwrap();
    let values = keys(&["c-1", "p-2"]);
    let id = created_row_id(&values);
    assert_eq!(id, "c-1,p-2");
    assert_eq!(parse_pk_values(&id, &meta), Some(values));
}

#[test]
fn list_table_selects_everything() {
    let plan = list_table("orders").unwrap();
    assert_eq!(plan.query.sql, "SELECT * FROM orders");
    assert!(plan.query.binds.is_empty());
    assert_eq!(list_table("nope").unwrap_err().message, "Unknown table");
}

#[test]
fn row_reads_by_key() {
    let plan = get_table_row("cart_items", "c, p").unwrap();
    assert_eq!(plan.query.sql, "SELECT * FROM cart_items WHERE cart_id = ? AND product_id = ?");
    assert_eq!(plan.query.binds, vec![SqlValue::Text("c".to_string()), SqlValue::Text("p".to_string())]);
    let e = get_table_row("cart_items", "c").unwrap_err();
    assert_eq!(e.status, 400);
    assert_eq!(e.message, "Invalid primary key format");
    assert_eq!(get_table_row("nope", "c").unwrap_err().message, "Unknown table");
}

#[test]
fn row_deletes_by_key() {
    let plan = delete_table_row("users", "u1").unwrap();
    assert_eq!(plan.query.sql, "DELETE FROM users WHERE id = ?");
    assert_eq!(plan.query.binds, vec![SqlValue::Text("u1".to_string())]);
}

#[test]
fn deleting_nothing_is_not_found() {
    let e = delete_outcome(0).unwrap_err();
    assert_eq!(e.status, 404);
    assert_eq!(e.message, "Row not found");
    assert!(delete_outcome(1).is_ok());
    assert_eq!(row_not_found().message, "Row not found");
}

#[test]
fn body_must_be_an_object() {
    let e = body_not_object();
    assert_eq!(e.status, 400);
    assert_eq!(e.message, "Request body must be a JSON object");
}

#[test]
fn insert_writes_known_columns_only() {
    let meta = get_table_meta("categories").unwrap();
    let plan = create_table_row("categories", &meta, &keys(&["bogus", "id", "name", "slug"])).unwrap();
    assert_eq!(plan.columns, keys(&["id", "name", "slug"]));
    assert_eq!(plan.sql, "INSERT INTO categories (id, name, slug) VALUES (?, ?, ?)");
}

#[test]
fn insert_without_columns_is_refused() {
    let meta = get_table_meta("categories").unwrap();
    let e = create_table_row("categories", &meta, &keys(&["bogus"])).unwrap_err();
    assert_eq!(e.status, 400);
    assert_eq!(e.message, "No valid columns provided");
}

#[test]
fn new_row_gets_generated_id_only_where_needed() {
    let users = get_table_meta("users").unwrap();
    let id = generated_row_id_with(&users, &keys(&["email"]), 0xa1a2a3a4b1b2c1c2d1d2d3d4d5d6d7d8);
    assert_eq!(id, Some("a1a2a3a4-b1b2-c1c2-d1d2-d3d4d5d6d7d8".to_string()));
    assert_eq!(generated_row_id_with(&users, &keys(&["id", "email"]), 1), None);
    let links = get_table_meta("product_categories").unwrap();
    assert_eq!(generated_row_id_with(&links, &keys(&["product_id"]), 1), None);
    let random = generated_row_id(&users, &keys(&[])).unwrap();
    assert_eq!(random.len(), 36);
    assert_eq!(&random[14..15], "4");
}

#[test]
fn update_sets_non_key_columns() {
    let meta = get_table_meta("cart_items").unwrap();
    let plan = update_table_row("cart_items", &meta, &keys(&["cart_id", "quantity", "zzz"]), "c,p").unwrap();
    assert_eq!(plan.set_columns, keys(&["quantity"]));
    assert_eq!(plan.sql, "UPDATE cart_items SET quantity = ? WHERE cart_id = ? AND product_id = ?");
    assert_eq!(plan.pk_values, keys(&["c", "p"]));
}

#[test]
fn update_errors_come_in_order() {
    let meta = get_table_meta("users").unwrap();
    let e = update_table_row("users", &meta, &keys(&["id"]), "a,b").unwrap_err();
    assert_eq!(e.message, "No updatable columns provided");
    let e = update_table_row("users", &meta, &keys(&["email"]), "a,b").unwrap_err();
    assert_eq!(e.status, 400);
    assert_eq!(e.message, "Invalid primary key format");
}

#[test]
fn key_values_from_body_fill_missing_with_empty() {
    let values = rustecom::tables::key_values_from_body(vec![Some("a".to_string()), None]);
    assert_eq!(values, keys(&["a", ""]));
    assert_eq!(created_row_id(&values), "a,");
}
