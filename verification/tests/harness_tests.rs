use tpch_roundtrip::corpus::{corpus_read_outcome, query_in_range, query_sql_path, QUERY_COUNT};
use tpch_roundtrip::errors::HarnessError;
use tpch_roundtrip::machine::{initial_phase, step, Event, Phase};
use tpch_roundtrip::numfmt::{format_millis, u64_to_dec};
use tpch_roundtrip::report::{failure_lines, query_output, report_lines};
use tpch_roundtrip::tables::{required_tables, table_data_path, Registrar, TABLE_COUNT};

#[test]
fn query_count_is_twenty_two() {
    assert_eq!(QUERY_COUNT, 22);
    assert!(!query_in_range(0));
    assert!(query_in_range(1));
    assert!(query_in_range(22));
    assert!(!query_in_range(23));
}

#[test]
fn query_zero_is_out_of_range() {
    match query_sql_path(0) {
        Err(HarnessError::OutOfRange) => {}
        _ => panic!("index 0 must be rejected before any file access"),
    }
}

#[test]
fn query_twenty_three_is_out_of_range() {
    match query_sql_path(23) {
        Err(HarnessError::OutOfRange) => {}
        _ => panic!("index 23 must be rejected before any file access"),
    }
}

#[test]
fn out_of_range_message_matches() {
    let e = query_sql_path(0).unwrap_err();
    assert_eq!(
        e.message(),
        "invalid query. Expected value between 1 and 22"
    );
}

#[test]
fn query_paths_follow_the_corpus_layout() {
    assert_eq!(query_sql_path(1).unwrap(), "tpch/sql/q1.sql");
    assert_eq!(query_sql_path(5).unwrap(), "tpch/sql/q5.sql");
    assert_eq!(query_sql_path(22).unwrap(), "tpch/sql/q22.sql");
}

#[test]
fn corpus_contents_pass_through_unmodified() {
    let contents = "SELECT 1;\n   \n".to_string();
    let r = corpus_read_outcome("tpch/sql/q1.sql", Ok(contents.clone()));
    assert_eq!(r.unwrap(), contents);
}

#[test]
fn missing_corpus_file_names_the_attempted_path() {
    let r = corpus_read_outcome(
        "tpch/sql/q5.sql",
        Err("No such file or directory (os error 2)".to_string()),
    );
    match r {
        Err(HarnessError::CorpusRead { attempts }) => {
            assert_eq!(
                attempts,
                vec!["tpch/sql/q5.sql: No such file or directory (os error 2)".to_string()]
            );
        }
        _ => panic!("an unreadable corpus file must give a corpus-read error"),
    }
}

#[test]
fn corpus_read_error_message_carries_path_and_cause() {
    let e = corpus_read_outcome("tpch/sql/q5.sql", Err("denied".to_string())).unwrap_err();
    assert_eq!(
        e.message(),
        "invalid query. Could not find query: tpch/sql/q5.sql: denied"
    );
}

#[test]
fn decimal_rendering_is_exact() {
    assert_eq!(u64_to_dec(0), "0");
    assert_eq!(u64_to_dec(7), "7");
    assert_eq!(u64_to_dec(22), "22");
    assert_eq!(u64_to_dec(1234567890), "1234567890");
}

#[test]
fn millis_have_two_decimal_digits() {
    assert_eq!(format_millis(0), "0.00");
    assert_eq!(format_millis(1_234_567), "1.23");
    assert_eq!(format_millis(15_000), "0.02");
    assert_eq!(format_millis(9_999_999), "10.00");
    assert_eq!(format_millis(1_000_000_000), "1000.00");
}

#[test]
fn report_lines_are_exact_and_ordered() {
    let lines = report_lines(1, "SELECT 1", "Projection: Int64(1)", "SELECT 1", 1_234_567);
    assert_eq!(
        lines,
        vec![
            "#### Running query 1 #####".to_string(),
            "input SQL: SELECT 1".to_string(),
            "----------------------------------".to_string(),
            "logical plan: Projection: Int64(1)".to_string(),
            "----------------------------------".to_string(),
            "output SQL: SELECT 1".to_string(),
            "----------------------------------".to_string(),
            "query 1 took 1.23 ms".to_string(),
            "#### Finished query 1 #####".to_string(),
        ]
    );
}

#[test]
fn failed_query_is_reported_with_its_index() {
    let e = HarnessError::Planning {
        message: "table unknown not found".to_string(),
    };
    let lines = failure_lines(7, &e);
    assert_eq!(
        lines,
        vec![
            "#### Running query 7 #####".to_string(),
            "query 7 failed: planning failed: table unknown not found".to_string(),
            "#### Finished query 7 #####".to_string(),
        ]
    );
}

#[test]
fn no_query_is_skipped_in_silence() {
    let ok = query_output(
        3,
        "SELECT 1",
        Ok(("plan".to_string(), "SELECT 1".to_string())),
        0,
    );
    assert_eq!(ok[0], "#### Running query 3 #####");
    assert_eq!(ok[ok.len() - 1], "#### Finished query 3 #####");
    assert_eq!(ok.len(), 9);

    let failed = query_output(
        3,
        "SELECT 1",
        Err(HarnessError::Unparse {
            message: "unsupported construct".to_string(),
        }),
        0,
    );
    assert_eq!(failed[0], "#### Running query 3 #####");
    assert_eq!(failed[failed.len() - 1], "#### Finished query 3 #####");
    assert_eq!(
        failed[1],
        "query 3 failed: unparsing failed: unsupported construct"
    );
}

#[test]
fn registration_error_message_names_the_table() {
    let e = HarnessError::Registration {
        table: "customer".to_string(),
        cause: "file not found".to_string(),
    };
    assert_eq!(
        e.message(),
        "registration failed for table customer: file not found"
    );
}

#[test]
fn the_eight_tables_in_binding_order() {
    let names = required_tables();
    assert_eq!(names.len(), TABLE_COUNT);
    assert_eq!(
        names,
        vec![
            "customer", "orders", "lineitem", "nation", "partsupp", "supplier", "part", "region"
        ]
    );
}

#[test]
fn table_data_paths_are_deterministic() {
    assert_eq!(table_data_path("customer"), "tpch/data/customer.parquet");
    assert_eq!(table_data_path("lineitem"), "tpch/data/lineitem.parquet");
}

#[test]
fn registrar_is_complete_only_with_all_eight() {
    let mut r = Registrar::new();
    assert!(!r.is_complete());
    let names = required_tables();
    for (i, name) in names.iter().enumerate() {
        r.record(name.clone());
        assert_eq!(r.is_complete(), i + 1 == TABLE_COUNT);
    }
}

#[test]
fn registration_order_has_no_effect_on_completeness() {
    let mut forward = Registrar::new();
    for name in required_tables() {
        forward.record(name);
    }
    let mut backward = Registrar::new();
    let mut names = required_tables();
    names.reverse();
    for name in names {
        backward.record(name);
    }
    assert!(forward.is_complete());
    assert!(backward.is_complete());
}

#[test]
fn machine_runs_registration_then_the_query_loop() {
    let mut s = initial_phase();
    assert_eq!(s, Phase::Uninitialized);
    s = step(s, Event::Begin);
    assert_eq!(s, Phase::Registering { bound: 0 });
    for _ in 0..TABLE_COUNT {
        s = step(s, Event::TableBound);
    }
    assert_eq!(s, Phase::Ready);
    s = step(s, Event::QueryStarted);
    assert_eq!(s, Phase::Running { q: 1 });
    s = step(s, Event::QuerySucceeded);
    assert_eq!(s, Phase::Reported { q: 1 });
    s = step(s, Event::QueryStarted);
    assert_eq!(s, Phase::Running { q: 2 });
    s = step(s, Event::QueryFailed);
    assert_eq!(s, Phase::SkippedWithError { q: 2 });
    for q in 3..=QUERY_COUNT {
        s = step(s, Event::QueryStarted);
        assert_eq!(s, Phase::Running { q });
        s = step(s, Event::QuerySucceeded);
    }
    s = step(s, Event::Finish);
    assert_eq!(s, Phase::Done);
}

#[test]
fn finish_before_the_last_query_does_not_close_the_run() {
    let mut s = initial_phase();
    s = step(s, Event::Begin);
    for _ in 0..TABLE_COUNT {
        s = step(s, Event::TableBound);
    }
    s = step(s, Event::QueryStarted);
    s = step(s, Event::QuerySucceeded);
    s = step(s, Event::Finish);
    assert_eq!(s, Phase::Reported { q: 1 });
}

#[test]
fn registration_failure_is_terminal() {
    let mut s = initial_phase();
    s = step(s, Event::Begin);
    s = step(s, Event::TableBound);
    s = step(s, Event::TableFailed);
    assert_eq!(s, Phase::Failed);
    s = step(s, Event::QueryStarted);
    assert_eq!(s, Phase::Failed);
    s = step(s, Event::TableBound);
    assert_eq!(s, Phase::Failed);
}
