use sql_lineage::analytics::{DepRow, QueryAnalytics};
use sql_lineage::FullColumn;

fn col(database: &str, schema: &str, table: &str, column: &str) -> FullColumn {
    FullColumn {
        database_name: database.to_string(),
        schema_name: schema.to_string(),
        table_name: table.to_string(),
        column_name: column.to_string(),
    }
}

/// The column catalog the tests run against.
fn catalog() -> Vec<FullColumn> {
    vec![
        col("prod", "integrations", "orders", "id"),
        col("prod", "integrations", "orders", "price"),
        col("prod", "integrations", "order_items", "id"),
        col("prod", "integrations", "order_items", "order_id"),
        col("prod", "integrations", "order_items", "count"),
        col("prod", "platform", "order_items", "order_id"),
        col("prod", "platform", "order_items", "count"),
    ]
}

fn entry<'a>(rows: &'a [DepRow], name: &str) -> &'a DepRow {
    rows.iter()
        .find(|r| r.output == name)
        .expect("expected an entry for this output column")
}

#[test]
fn example_1() {
    let sql = r#"
select orders.id, COUNT(order_items.id) as item_count
from orders, integrations.order_items
where order_items.order_id = orders.id
group by order_items.order_id;"#;
    let mut analytics = QueryAnalytics::from(catalog());
    analytics
        .get_query_lineage(sql.to_string())
        .expect("Failed to get lineage");
    let rows = &analytics.dependency_map;
    assert_eq!(rows.len(), 2);
    let item_count = entry(rows, "item_count");
    assert_eq!(
        item_count.upstream,
        vec!["prod.integrations.order_items.id".to_string()]
    );
    assert!(item_count.opaque);
    let id = entry(rows, "id");
    assert_eq!(id.upstream, vec!["prod.integrations.orders.id".to_string()]);
    assert!(!id.opaque);
}

#[test]
fn simple_1() {
    let sql = r#"
select id from orders;"#;
    let mut analytics = QueryAnalytics::from(catalog());
    analytics
        .get_query_lineage(sql.to_string())
        .expect("Failed to get lineage");
    let rows = &analytics.dependency_map;
    assert_eq!(rows.len(), 1);
    let id = entry(rows, "id");
    assert_eq!(id.upstream, vec!["prod.integrations.orders.id".to_string()]);
    assert!(!id.opaque);
}

#[test]
fn simple_2() {
    let sql = r#"
select id as foobar from orders;"#;
    let mut analytics = QueryAnalytics::from(catalog());
    analytics
        .get_query_lineage(sql.to_string())
        .expect("Failed to get lineage");
    let rows = &analytics.dependency_map;
    assert_eq!(rows.len(), 1);
    let foobar = entry(rows, "foobar");
    assert_eq!(
        foobar.upstream,
        vec!["prod.integrations.orders.id".to_string()]
    );
    assert!(!foobar.opaque);
}

#[test]
fn simple_3() {
    let sql = r#"
select count(id) as foobar from orders;"#;
    let mut analytics = QueryAnalytics::from(catalog());
    analytics
        .get_query_lineage(sql.to_string())
        .expect("Failed to get lineage");
    let rows = &analytics.dependency_map;
    assert_eq!(rows.len(), 1);
    let foobar = entry(rows, "foobar");
    assert_eq!(
        foobar.upstream,
        vec!["prod.integrations.orders.id".to_string()]
    );
    assert!(foobar.opaque);
}

#[test]
fn example_2() {
    let sql = r#"
select order_id from integrations.order_items
union all
select order_id from platform.order_items;"#;
    let mut analytics = QueryAnalytics::from(catalog());
    analytics
        .get_query_lineage(sql.to_string())
        .expect("Failed to get lineage");
    let rows = &analytics.dependency_map;
    assert_eq!(rows.len(), 1);
    let order_id = entry(rows, "order_id");
    assert_eq!(
        order_id.upstream,
        vec![
            "prod.integrations.order_items.order_id".to_string(),
            "prod.platform.order_items.order_id".to_string(),
        ]
    );
    assert!(!order_id.opaque);
}

#[test]
fn example_3() {
    let sql = r#"
select sum(count * price) as total_price
from orders, platform.order_items
where order_items.order_id = orders.id;"#;
    let mut analytics = QueryAnalytics::from(catalog());
    analytics
        .get_query_lineage(sql.to_string())
        .expect("Failed to get lineage");
    let rows = &analytics.dependency_map;
    assert_eq!(rows.len(), 1);
    let total_price = entry(rows, "total_price");
    assert_eq!(
        total_price.upstream,
        vec![
            "prod.platform.order_items.count".to_string(),
            "prod.integrations.orders.price".to_string(),
        ]
    );
    assert!(total_price.opaque);
}

#[test]
fn example_4() {
    let sql = r#"
select sum(order_items.count * price) as total_price
from orders, (
  select order_id as my_order_id, count from integrations.order_items
  union all
  select order_id as my_order_id, count from platform.order_items
) order_items
where order_items.my_order_id = orders.id;"#;
    let mut analytics = QueryAnalytics::from(catalog());
    analytics
        .get_query_lineage(sql.to_string())
        .expect("Failed to get lineage");
    let rows = &analytics.dependency_map;
    assert_eq!(rows.len(), 1);
    let total_price = entry(rows, "total_price");
    assert_eq!(
        total_price.upstream,
        vec!["prod.integrations.order_items.count".to_string()]
    );
    assert!(total_price.opaque);
}
