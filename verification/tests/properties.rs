use sql_lineage::analytics::QueryAnalytics;
use sql_lineage::ast::{LineageError, Projection, QueryBody, SqlStatement};
use sql_lineage::FullColumn;

fn col(database: &str, schema: &str, table: &str, column: &str) -> FullColumn {
    FullColumn {
        database_name: database.to_string(),
        schema_name: schema.to_string(),
        table_name: table.to_string(),
        column_name: column.to_string(),
    }
}

fn small_catalog() -> Vec<FullColumn> {
    vec![
        col("prod", "integrations", "orders", "id"),
        col("prod", "integrations", "order_items", "order_id"),
    ]
}

#[test]
fn accumulation_is_idempotent() {
    let mut analytics = QueryAnalytics::from(Vec::new());
    analytics.add_dependency("k".to_string(), "u1".to_string(), false);
    analytics.add_dependency("k".to_string(), "u1".to_string(), false);
    assert_eq!(analytics.dependency_map.len(), 1);
    assert_eq!(analytics.dependency_map[0].upstream, vec!["u1".to_string()]);
}

#[test]
fn accumulation_preserves_first_seen_order() {
    let mut analytics = QueryAnalytics::from(Vec::new());
    analytics.add_dependency("k".to_string(), "u1".to_string(), false);
    analytics.add_dependency("k".to_string(), "u2".to_string(), true);
    analytics.add_dependency("k".to_string(), "u1".to_string(), true);
    analytics.add_dependency("other".to_string(), "u3".to_string(), false);
    assert_eq!(analytics.dependency_map.len(), 2);
    let k = &analytics.dependency_map[0];
    assert_eq!(k.output, "k");
    assert_eq!(k.upstream, vec!["u1".to_string(), "u2".to_string()]);
    assert!(k.opaque);
    let other = &analytics.dependency_map[1];
    assert_eq!(other.output, "other");
    assert_eq!(other.upstream, vec!["u3".to_string()]);
    assert!(!other.opaque);
}

#[test]
fn opacity_follows_the_last_appending_write() {
    // The flag is assigned, not OR-combined, and only by a write that
    // actually appends: a later transparent contributor overwrites an opaque
    // flag, while a repeated identifier leaves it alone.
    let mut analytics = QueryAnalytics::from(Vec::new());
    analytics.add_dependency("k".to_string(), "u1".to_string(), true);
    assert!(analytics.dependency_map[0].opaque);
    analytics.add_dependency("k".to_string(), "u2".to_string(), false);
    assert!(!analytics.dependency_map[0].opaque);
    analytics.add_dependency("k".to_string(), "u1".to_string(), true);
    assert!(!analytics.dependency_map[0].opaque);
}

#[test]
fn lookup_finds_recorded_entry() {
    let mut analytics = QueryAnalytics::from(Vec::new());
    analytics.add_dependency("k".to_string(), "u".to_string(), true);
    let row = analytics.lookup(&"k".to_string()).expect("entry must exist");
    assert_eq!(row.upstream, vec!["u".to_string()]);
    assert!(row.opaque);
    assert!(analytics.lookup(&"absent".to_string()).is_none());
}

#[test]
fn search_with_table_hint_adds_under_alias() {
    let mut analytics = QueryAnalytics::from(small_catalog());
    let from = Vec::new();
    let r = analytics.search_for_col_and_add(
        &from,
        "id".to_string(),
        Some("renamed".to_string()),
        Some("orders".to_string()),
        false,
    );
    assert!(r.is_ok());
    assert_eq!(analytics.dependency_map.len(), 1);
    assert_eq!(analytics.dependency_map[0].output, "renamed");
    assert_eq!(
        analytics.dependency_map[0].upstream,
        vec!["prod.integrations.orders.id".to_string()]
    );
}

#[test]
fn unresolvable_reference_changes_nothing() {
    let sql = "select nothing_known from orders;".to_string();
    let mut analytics = QueryAnalytics::from(small_catalog());
    analytics.get_query_lineage(sql).expect("run must not fail");
    assert!(analytics.dependency_map.is_empty());
}

#[test]
fn aggregate_casing_is_recognized() {
    let mut analytics = QueryAnalytics::from(small_catalog());
    analytics
        .get_query_lineage("select COUNT(id) as n from orders;".to_string())
        .expect("run must not fail");
    assert!(analytics.dependency_map[0].opaque);

    let mut analytics2 = QueryAnalytics::from(small_catalog());
    analytics2
        .get_query_lineage("select SuM(id) as n from orders;".to_string())
        .expect("run must not fail");
    assert!(analytics2.dependency_map[0].opaque);
}

#[test]
fn unrecognized_function_is_transparent() {
    let mut analytics = QueryAnalytics::from(small_catalog());
    analytics
        .get_query_lineage("select avg(id) as n from orders;".to_string())
        .expect("run must not fail");
    assert_eq!(analytics.dependency_map.len(), 1);
    let n = &analytics.dependency_map[0];
    assert_eq!(n.output, "n");
    assert_eq!(n.upstream, vec!["prod.integrations.orders.id".to_string()]);
    assert!(!n.opaque);
}

#[test]
fn alias_renames_transparent_passthrough() {
    let mut analytics = QueryAnalytics::from(small_catalog());
    analytics
        .get_query_lineage("select id as foobar from orders;".to_string())
        .expect("run must not fail");
    assert_eq!(analytics.dependency_map.len(), 1);
    assert_eq!(analytics.dependency_map[0].output, "foobar");
    assert!(analytics.dependency_map.iter().all(|r| r.output != "id"));
    assert!(!analytics.dependency_map[0].opaque);
}

#[test]
fn derived_table_resolves_through_subquery() {
    let sql = "select order_id from (select order_id from integrations.order_items) oi;";
    let mut analytics = QueryAnalytics::from(small_catalog());
    analytics
        .get_query_lineage(sql.to_string())
        .expect("run must not fail");
    assert_eq!(analytics.dependency_map.len(), 1);
    let order_id = &analytics.dependency_map[0];
    assert_eq!(order_id.output, "order_id");
    assert_eq!(
        order_id.upstream,
        vec!["prod.integrations.order_items.order_id".to_string()]
    );
}

#[test]
fn non_query_statements_are_ignored() {
    let sql = "insert into orders (id) values (1);".to_string();
    let mut analytics = QueryAnalytics::from(small_catalog());
    analytics.get_query_lineage(sql).expect("run must not fail");
    assert!(analytics.dependency_map.is_empty());
}

#[test]
fn wildcard_projection_is_fatal() {
    let mut analytics = QueryAnalytics::from(small_catalog());
    let r = analytics.get_query_lineage("select * from orders;".to_string());
    assert_eq!(r, Err(LineageError::UnsupportedProjection));
}

#[test]
fn values_body_is_fatal() {
    let mut analytics = QueryAnalytics::from(small_catalog());
    let r = analytics.get_query_lineage("values (1);".to_string());
    assert_eq!(r, Err(LineageError::UnsupportedBody));
}

#[test]
fn aliased_arithmetic_is_fatal() {
    let mut analytics = QueryAnalytics::from(small_catalog());
    let r = analytics.get_query_lineage("select id + 1 as x from orders;".to_string());
    assert_eq!(r, Err(LineageError::UnsupportedExpression));
}

#[test]
fn literal_function_argument_is_fatal() {
    let mut analytics = QueryAnalytics::from(small_catalog());
    let r = analytics.get_query_lineage("select sum(1) as x from orders;".to_string());
    assert_eq!(r, Err(LineageError::UnsupportedExpression));
}

#[test]
fn unparsable_text_is_fatal() {
    let mut analytics = QueryAnalytics::from(small_catalog());
    let r = analytics.get_query_lineage("this is not sql".to_string());
    assert_eq!(r, Err(LineageError::ParseFailure));
}

#[test]
fn empty_compound_identifier_is_fatal() {
    let mut analytics = QueryAnalytics::from(small_catalog());
    let statements = vec![SqlStatement::Query {
        body: QueryBody::Select {
            projection: vec![Projection::Compound { parts: Vec::new() }],
            from: Vec::new(),
        },
    }];
    let r = analytics.traverse_statements(statements);
    assert_eq!(r, Err(LineageError::EmptyIdentifier));
}
