use ofs::schema::{current_version_sql, migrations_table_sql, pending_migrations, Dialect};

#[test]
fn fresh_database_gets_both_migrations() {
    let plan = pending_migrations(None, Dialect::Sqlite);
    assert_eq!(plan.len(), 2);
    assert_eq!(plan[0].version, 1);
    assert_eq!(plan[1].version, 2);
    assert!(plan[0].create_sql.contains("project_registries"));
    assert!(plan[0].create_sql.contains("BLOB"));
    assert!(plan[1].create_sql.contains("backfill_jobs"));
    assert_eq!(plan[1].record_sql, "INSERT INTO migrations (version, dirty) VALUES (2, 0)");
    assert_eq!(pending_migrations(Some(0), Dialect::Sqlite).len(), 2);
}

#[test]
fn partly_migrated_database_gets_the_rest() {
    let plan = pending_migrations(Some(1), Dialect::Postgres);
    assert_eq!(plan.len(), 1);
    assert_eq!(plan[0].version, 2);
    assert!(plan[0].create_sql.contains("TIMESTAMPTZ"));
    assert!(pending_migrations(Some(2), Dialect::Postgres).is_empty());
    assert!(pending_migrations(Some(7), Dialect::Sqlite).is_empty());
}

#[test]
fn bookkeeping_statements() {
    assert!(migrations_table_sql(Dialect::Sqlite).contains("datetime('now')"));
    assert!(migrations_table_sql(Dialect::Postgres).contains("NOW()"));
    assert_eq!(current_version_sql(), "SELECT COALESCE(MAX(version), 0) FROM migrations");
}
