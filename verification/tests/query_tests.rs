use tauri_overlay::array_json::ReplayCacheArrayJson;
use tauri_overlay::db_core::{
    ReplayCacheDbError, ReplayCacheDbPaths, ReplayCacheFileName, ReplayCacheSqlBatch, ReplayCacheStatsFactOps,
    SqliteReplayCacheEntrySink, REPLAY_CACHE_QUERY_BATCH_SIZE,
};
use tauri_overlay::query_types::{
    ReplayCacheEntryQuery, ReplayCacheEntryRecordQuery, REPLAY_CACHE_CHILD_TABLES,
    ReplayCacheDifficultyFilter, ReplayCacheGameSortKey, ReplayCachePage, ReplayCachePageResult,
    ReplayCachePlayerNote, ReplayCachePlayerSortKey, ReplayCacheReadScope, ReplayCacheSortDirection,
    ReplayCacheStatsDifficultyExclusion, ReplayCacheStatsQuery,
};
use tauri_overlay::stats_filters::{
    stats_mastery_sum_expression, stats_player_like_pattern, stats_prefilter_where_clause,
    stats_where_clause, u64_to_i64, StatsBindValue, ALL_CLAUSE, ANY_RESULT_CLAUSE,
    DETAILED_ONLY_CLAUSE, NEVER_CLAUSE, WINS_ONLY_CLAUSE,
};

#[test]
fn default_stats_query_keeps_every_result() {
    let q = ReplayCacheStatsQuery::new(ReplayCacheReadScope::All, 0);
    let (sql, binds) = stats_where_clause(&q);
    assert_eq!(sql, ANY_RESULT_CLAUSE);
    assert!(binds.is_empty());
    assert_ne!(sql, ALL_CLAUSE);
}

#[test]
fn stats_where_clause_joins_filters_in_order() {
    let q = ReplayCacheStatsQuery::new(ReplayCacheReadScope::DetailedOnly, 10)
        .with_result_filters(true, false)
        .with_date_seconds(Some(5), None)
        .with_player_filter("  Zer*_1 ".to_string())
        .with_difficulty_exclusions(vec![
            ReplayCacheStatsDifficultyExclusion::BrutalPlus3,
            ReplayCacheStatsDifficultyExclusion::Casual,
        ])
        .with_region_exclusions(vec!["eu".to_string()]);
    let (sql, binds) = stats_where_clause(&q);
    assert!(sql.starts_with(&format!("{} AND {} AND e.date_seconds > ?", DETAILED_ONLY_CLAUSE, WINS_ONLY_CLAUSE)));
    assert!(sql.contains("e.brutal_plus <> ?"));
    assert!(sql.ends_with("NOT IN (?)"));
    assert_eq!(
        binds,
        vec![
            StatsBindValue::Integer(5),
            StatsBindValue::Text("Zer%\\_1".to_string()),
            StatsBindValue::Integer(3),
            StatsBindValue::Text("Casual".to_string()),
            StatsBindValue::Text("EU".to_string()),
        ]
    );
    let (pre, pre_binds) = stats_prefilter_where_clause(&q);
    assert!(!pre.contains("NOT IN"));
    assert_eq!(pre_binds.len(), 4);
}

#[test]
fn stats_where_clause_refuses_impossible_filters() {
    let q = ReplayCacheStatsQuery::new(ReplayCacheReadScope::All, 0)
        .with_mutation_filters(false, false)
        .with_length_seconds(60, 0);
    let (sql, binds) = stats_where_clause(&q);
    assert!(sql.starts_with(NEVER_CLAUSE));
    assert_eq!(binds.last(), Some(&StatsBindValue::Seconds(60)));
    let files = ReplayCacheStatsQuery::new(ReplayCacheReadScope::All, 0)
        .with_current_replay_files(vec!["a.SC2Replay".to_string(), "b.SC2Replay".to_string()]);
    let (sql, binds) = stats_where_clause(&files);
    assert!(sql.starts_with("e.file IN (?, ?)"));
    assert_eq!(binds.len(), 2);
}

#[test]
fn player_patterns() {
    assert_eq!(stats_player_like_pattern("  "), None);
    assert_eq!(stats_player_like_pattern("Zérg"), None);
    assert_eq!(stats_player_like_pattern(" a?b%c\\ "), Some("a_b\\%c\\\\".to_string()));
    assert_eq!(u64_to_i64(7), 7);
    assert_eq!(u64_to_i64(u64::MAX), i64::MAX);
}

#[test]
fn mastery_sum_has_six_terms() {
    let s = stats_mastery_sum_expression("p.m");
    assert!(s.starts_with("COALESCE(json_extract(p.m, '$[0]'), 0) + "));
    assert!(s.ends_with("COALESCE(json_extract(p.m, '$[5]'), 0)"));
    assert_eq!(s.matches(" + ").count(), 5);
}

#[test]
fn placeholders_and_chunks() {
    assert_eq!(ReplayCacheSqlBatch::in_placeholders(0), "");
    assert_eq!(ReplayCacheSqlBatch::in_placeholders(3), "?, ?, ?");
    assert_eq!(ReplayCacheSqlBatch::values_placeholders(2), "(?), (?)");
    let values: Vec<u32> = (0..(REPLAY_CACHE_QUERY_BATCH_SIZE as u32 * 2 + 5)).collect();
    let chunks = ReplayCacheSqlBatch::chunks(&values);
    assert_eq!(chunks.len(), 3);
    assert_eq!(chunks[0].len(), REPLAY_CACHE_QUERY_BATCH_SIZE);
    assert_eq!(chunks[2], &[1800, 1801, 1802, 1803, 1804]);
    let empty: Vec<u32> = Vec::new();
    assert!(ReplayCacheSqlBatch::chunks(&empty).is_empty());
}

#[test]
fn commander_and_handle_normalization() {
    assert_eq!(ReplayCacheStatsFactOps::normalized_commander_name("  han and HORNER "), "Han & Horner");
    assert_eq!(ReplayCacheStatsFactOps::normalized_commander_name("arcturus mengsk"), "Mengsk");
    assert_eq!(ReplayCacheStatsFactOps::normalized_commander_name(" Unknown Hero "), "Unknown Hero");
    assert_eq!(ReplayCacheStatsFactOps::normalized_commander_name("   "), "");
    assert_eq!(ReplayCacheStatsFactOps::normalized_handle_key(" 2-S2-1-123 "), "2-s2-1-123");
    assert_eq!(ReplayCacheStatsFactOps::normalized_handle_key("player"), "");
    let sql = ReplayCacheStatsFactOps::normalized_handle_key_sql("p.h");
    assert_eq!(sql.matches("p.h").count(), 2);
    let sql = ReplayCacheStatsFactOps::normalized_commander_sql("p.c");
    assert!(sql.contains("WHEN 'abathur' THEN 'Abathur'"));
}

#[test]
fn replay_file_names() {
    assert_eq!(ReplayCacheFileName::from_replay_file("C:\\a\\b\\ game.SC2Replay ").into_string(), "game.SC2Replay");
    assert_eq!(ReplayCacheFileName::from_replay_file("/x/y/z.SC2Replay").into_string(), "z.SC2Replay");
    assert_eq!(ReplayCacheFileName::from_replay_file("dir/").into_string(), "dir/");
    assert_eq!(SqliteReplayCacheEntrySink::new("cache.db".to_string()).cache_path(), "cache.db");
}

#[test]
fn array_json_round_trips() {
    let enc = match ReplayCacheArrayJson::encode_u64(&[1, 2, 3]) {
        Ok(t) => t,
        Err(_) => panic!("encode"),
    };
    assert_eq!(enc, "[1,2,3]");
    match ReplayCacheArrayJson::decode_u64(&enc) {
        Ok(v) => assert_eq!(v, vec![1, 2, 3]),
        Err(_) => panic!("decode"),
    }
    match ReplayCacheArrayJson::encode_strings(&["a\"b".to_string()]) {
        Ok(t) => assert_eq!(t, "[\"a\\\"b\"]"),
        Err(_) => panic!("encode"),
    }
    match ReplayCacheArrayJson::decode_strings("[\"x\",\"y\"]") {
        Ok(v) => assert_eq!(v, vec!["x".to_string(), "y".to_string()]),
        Err(_) => panic!("decode"),
    }
    match ReplayCacheArrayJson::encode_u32(&[]) {
        Ok(t) => assert_eq!(t, "[]"),
        Err(_) => panic!("encode"),
    }
}

#[test]
fn array_json_errors_name_their_context() {
    match ReplayCacheArrayJson::decode_u64("[1, -2]") {
        Err(ReplayCacheDbError::JsonArray { context, .. }) => assert_eq!(context, "u64 array"),
        _ => panic!("expected an error"),
    }
    match ReplayCacheArrayJson::decode_u32("[4294967296]") {
        Err(ReplayCacheDbError::JsonArray { context, .. }) => assert_eq!(context, "u32 array"),
        _ => panic!("expected an error"),
    }
    match ReplayCacheArrayJson::decode_strings("not json") {
        Err(ReplayCacheDbError::JsonArray { context, .. }) => assert_eq!(context, "string array"),
        _ => panic!("expected an error"),
    }
}

#[test]
fn query_value_parsers() {
    assert_eq!(ReplayCacheStatsDifficultyExclusion::from_query_value(" 4 "), Some(ReplayCacheStatsDifficultyExclusion::BrutalPlus4));
    assert_eq!(ReplayCacheStatsDifficultyExclusion::from_query_value("Hard"), Some(ReplayCacheStatsDifficultyExclusion::Hard));
    assert_eq!(ReplayCacheStatsDifficultyExclusion::from_query_value(""), None);
    assert_eq!(
        ReplayCacheStatsDifficultyExclusion::from_query_value(" Weird "),
        Some(ReplayCacheStatsDifficultyExclusion::Other("Weird".to_string()))
    );
    assert_eq!(ReplayCacheSortDirection::from_query_value(Some(" DESC "), ReplayCacheSortDirection::Asc), ReplayCacheSortDirection::Desc);
    assert_eq!(ReplayCacheSortDirection::from_query_value(Some("up"), ReplayCacheSortDirection::Asc), ReplayCacheSortDirection::Asc);
    assert_eq!(ReplayCacheSortDirection::from_query_value(None, ReplayCacheSortDirection::Desc), ReplayCacheSortDirection::Desc);
    assert_eq!(ReplayCacheSortDirection::Asc.sql_keyword(), "ASC");
    assert_eq!(ReplayCacheGameSortKey::from_query_value(None), ReplayCacheGameSortKey::from_query_value(Some("date")));
    assert_eq!(ReplayCachePlayerSortKey::from_query_value(None), ReplayCachePlayerSortKey::from_query_value(Some("nonsense")));
    assert_eq!(ReplayCacheDifficultyFilter::from_query_value("nonsense"), None);
    assert_eq!(ReplayCacheDifficultyFilter::all().len(), 10);
}

#[test]
fn pages() {
    let p = ReplayCachePage::new(3, 20);
    assert_eq!((p.offset(), p.limit()), (40, 20));
    let p = ReplayCachePage::new(0, 0);
    assert_eq!((p.offset(), p.limit()), (0, 1));
    let p = ReplayCachePage::new(usize::MAX, usize::MAX);
    assert_eq!(p.offset(), usize::MAX);
    let p = ReplayCachePage::from_offset(7, 0);
    assert_eq!((p.offset(), p.limit()), (7, 1));
    let r = ReplayCachePageResult::new(vec![1, 2], 9);
    assert_eq!(r.rows(), &[1, 2]);
    assert_eq!(r.total_rows(), 9);
    assert_eq!(r.into_rows_and_total(), (vec![1, 2], 9));
    let n = ReplayCachePlayerNote::new("h".to_string(), "n".to_string());
    assert_eq!((n.handle(), n.note()), ("h", "n"));
}

#[test]
fn database_error_messages() {
    let e = ReplayCacheDbError::UnsupportedSchema { path: "/c/db.sqlite3".to_string(), version: -2, supported: 7 };
    assert_eq!(
        e.message(),
        "cache database '/c/db.sqlite3' has unsupported schema version -2; supported version is 7"
    );
    assert!(!e.is_sqlite_lock());
    let io = ReplayCacheDbError::Io {
        path: "x".to_string(),
        source: std::io::Error::new(std::io::ErrorKind::Other, "disk gone"),
    };
    assert_eq!(io.message(), "cache database io error 'x': disk gone");
    let busy = ReplayCacheDbError::Sqlite {
        path: "db".to_string(),
        source: rusqlite::Error::SqliteFailure(rusqlite::ffi::Error::new(5), None),
    };
    assert!(busy.is_sqlite_lock());
    assert!(busy.message().starts_with("cache database sqlite error 'db': "));
    let other = ReplayCacheDbError::Sqlite { path: "db".to_string(), source: rusqlite::Error::InvalidQuery };
    assert!(!other.is_sqlite_lock());
}

#[test]
fn database_side_files() {
    assert!(ReplayCacheDbPaths::is_sqlite3_extension(Some("SQLite3")));
    assert!(!ReplayCacheDbPaths::is_sqlite3_extension(Some("json")));
    assert!(!ReplayCacheDbPaths::is_sqlite3_extension(None));
    assert_eq!(
        ReplayCacheDbPaths::db_related_paths("/d/cache.sqlite3"),
        vec!["/d/cache.sqlite3", "/d/cache.sqlite3-wal", "/d/cache.sqlite3-shm", "/d/cache.sqlite3-journal"]
    );
}

#[test]
fn database_error_messages_name_the_cause() {
    let e = ReplayCacheDbError::Sqlite { path: "db".to_string(), source: rusqlite::Error::InvalidQuery };
    assert_eq!(e.message(), format!("cache database sqlite error 'db': {}", rusqlite::Error::InvalidQuery));
    let locked = ReplayCacheDbError::Sqlite {
        path: "db".to_string(),
        source: rusqlite::Error::SqliteFailure(rusqlite::ffi::Error::new(6), None),
    };
    assert!(locked.is_sqlite_lock());
    let readonly = ReplayCacheDbError::Sqlite {
        path: "db".to_string(),
        source: rusqlite::Error::SqliteFailure(rusqlite::ffi::Error::new(8), None),
    };
    assert!(!readonly.is_sqlite_lock());
}

#[test]
fn child_table_deletes_share_their_shape() {
    let mut seen: Vec<&str> = Vec::new();
    for t in REPLAY_CACHE_CHILD_TABLES {
        let sql = t.delete_by_replay_id_sql();
        assert!(sql.starts_with("DELETE FROM replay_cache_"));
        assert!(sql.ends_with(" WHERE replay_id = ?1"));
        assert!(!seen.contains(&sql));
        seen.push(sql);
    }
    assert_eq!(seen.len(), 10);
}

#[test]
fn record_query_filters_and_limits_as_asked() {
    let order = "ORDER BY date_seconds DESC, date_text DESC, file DESC, hash DESC";
    for (query, detailed, limited) in [
        (ReplayCacheEntryQuery::all(0), false, false),
        (ReplayCacheEntryQuery::all(5), false, true),
        (ReplayCacheEntryQuery::detailed_only(0), true, false),
        (ReplayCacheEntryQuery::detailed_only(7), true, true),
    ] {
        let q = ReplayCacheEntryRecordQuery::from_entry_query(query);
        let sql = q.sql();
        assert_eq!(sql.contains("WHERE detailed_analysis = 1"), detailed);
        assert_eq!(sql.contains("LIMIT ?1"), limited);
        assert!(sql.contains(order));
        assert_eq!(q.limit(query).is_some(), limited);
    }
    let big = ReplayCacheEntryQuery::all(usize::MAX);
    assert_eq!(ReplayCacheEntryRecordQuery::from_entry_query(big).limit(big), Some(i64::MAX));
}

#[test]
fn batches_rejoin_to_the_values() {
    let values: Vec<u32> = (0..1801).collect();
    let chunks = ReplayCacheSqlBatch::chunks(&values);
    let sizes: Vec<usize> = chunks.iter().map(|c| c.len()).collect();
    assert_eq!(sizes, vec![900, 900, 1]);
    assert_eq!(chunks.concat(), values);
    let exact: Vec<u32> = (0..900).collect();
    assert_eq!(ReplayCacheSqlBatch::chunks(&exact).len(), 1);
}

#[test]
fn commander_normalization_is_idempotent() {
    for raw in ["  han and HORNER ", " Unknown Hero ", "   ", "ZERATUL", "mengsk "] {
        let once = ReplayCacheStatsFactOps::normalized_commander_name(raw);
        assert_eq!(ReplayCacheStatsFactOps::normalized_commander_name(&once), once);
        assert_eq!(once.trim(), once);
        assert_eq!(once.is_empty(), raw.trim().is_empty());
    }
    assert_eq!(ReplayCacheStatsFactOps::normalized_commander_name("ZERATUL"), "Zeratul");
}

#[test]
fn encoded_arrays_read_back() {
    let texts = vec!["a\"b".to_string(), "tab\there".to_string(), "línea\n".to_string(), String::new()];
    let t = match ReplayCacheArrayJson::encode_strings(&texts) {
        Ok(t) => t,
        Err(_) => panic!("encode"),
    };
    match ReplayCacheArrayJson::decode_strings(&t) {
        Ok(v) => assert_eq!(v, texts),
        Err(_) => panic!("decode"),
    }
    let numbers = vec![0u64, u64::MAX, 42];
    let t = match ReplayCacheArrayJson::encode_u64(&numbers) {
        Ok(t) => t,
        Err(_) => panic!("encode"),
    };
    assert_eq!(t, "[0,18446744073709551615,42]");
    match ReplayCacheArrayJson::decode_u64(&t) {
        Ok(v) => assert_eq!(v, numbers),
        Err(_) => panic!("decode"),
    }
    let small = vec![u32::MAX, 7];
    let t = match ReplayCacheArrayJson::encode_u32(&small) {
        Ok(t) => t,
        Err(_) => panic!("encode"),
    };
    match ReplayCacheArrayJson::decode_u32(&t) {
        Ok(v) => assert_eq!(v, small),
        Err(_) => panic!("decode"),
    }
}
