use restream::db::{
    check_stream_key, ensure_column_exists, later_columns, list_app_logs, prune_expired_sessions,
    retention_modifier, schema_statements, table_info_sql, AppLogFilters,
};

fn no_filters() -> AppLogFilters {
    AppLogFilters {
        level: None,
        target: None,
        pipeline_id: None,
        output_id: None,
        event_class: None,
        since: None,
        until: None,
        prefix: None,
        order: None,
        limit: None,
    }
}

#[test]
fn unfiltered_query_shows_the_newest_entries() {
    let query = list_app_logs(&no_filters());
    assert_eq!(
        query.sql,
        "SELECT id, ts, level, target, message, fields, pipeline_id, output_id, event_type FROM \
         app_logs WHERE level IN (?, ?, ?) ORDER BY ts DESC, id DESC LIMIT 200"
    );
    assert_eq!(query.binds, vec!["ERROR", "WARN", "INFO"]);
}

#[test]
fn every_filter_adds_its_condition_and_values() {
    let query = list_app_logs(&AppLogFilters {
        level: Some("error".to_string()),
        target: Some("media".to_string()),
        pipeline_id: Some("p1".to_string()),
        prefix: Some("[a], [b]".to_string()),
        order: Some("asc".to_string()),
        limit: Some(5_000),
        ..no_filters()
    });
    assert!(query.sql.contains(
        "WHERE level IN (?) AND target LIKE ? AND pipeline_id = ? AND (message LIKE ? OR message \
         LIKE ?) ORDER BY ts ASC, id ASC LIMIT 1000"
    ));
    assert_eq!(query.binds, vec!["ERROR", "media%", "p1", "[a]%", "[b]%"]);
    assert_eq!(query.sql.matches('?').count(), query.binds.len());
}

#[test]
fn row_limits_are_kept_within_bounds() {
    let limited = |n| {
        list_app_logs(&AppLogFilters {
            limit: Some(n),
            ..no_filters()
        })
        .sql
    };
    assert!(limited(0).ends_with("LIMIT 1"));
    assert!(limited(-3).ends_with("LIMIT 1"));
    assert!(limited(7).ends_with("LIMIT 7"));
}

#[test]
fn columns_are_added_once() {
    assert_eq!(table_info_sql("outputs"), "PRAGMA table_info(outputs)");
    let columns = vec!["id".to_string(), "name".to_string()];
    assert_eq!(ensure_column_exists("outputs", "name", "TEXT", &columns), None);
    let sql = ensure_column_exists("outputs", "url", "TEXT", &columns).expect("a statement");
    assert!(sql.contains("outputs") && sql.contains("url TEXT"));
}

#[test]
fn stream_keys_are_unique() {
    assert!(check_stream_key(0).is_ok());
    assert!(check_stream_key(1).is_err());
}

#[test]
fn retention_and_sessions_are_counted_back() {
    assert_eq!(retention_modifier(7), "-7 days");
    assert_eq!(prune_expired_sessions(1_000, 400), 600);
}

#[test]
fn schema_is_set_up_in_order() {
    let all = schema_statements();
    assert_eq!(all.len(), 18);
    assert_eq!(all[0], "PRAGMA journal_mode = WAL;");
    assert!(all[2].starts_with("CREATE TABLE IF NOT EXISTS pipelines ("));
    assert_eq!(all[16], "DROP INDEX IF EXISTS idx_app_logs_history;");
    assert_eq!(later_columns()[1], ("outputs", "monitoring_url", "TEXT"));
}
