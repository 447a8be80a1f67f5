use nanobot::seed::SeedKind;
use nanobot::seed::SeedPresence;
use nanobot::seed::seed_missing_plan;
use nanobot::seed::seed_path;
use nanobot::seed::seed_payload;
use nanobot::serve::Params;
use nanobot::serve::effective_paging;
use nanobot::serve::table_response_status;
use nanobot::text::str_contains;
use nanobot::text::str_is_blank;

#[test]
fn substring_search_finds_and_rejects() {
    assert!(str_contains("hello world", "lo wo"));
    assert!(str_contains("hello", "hello"));
    assert!(str_contains("hello", ""));
    assert!(str_contains("", ""));
    assert!(!str_contains("", "a"));
    assert!(!str_contains("hello", "world"));
    assert!(!str_contains("ab", "aba"));
    assert!(str_contains("aaab", "aab"));
}

#[test]
fn blank_detection_matches_trim() {
    assert!(str_is_blank(""));
    assert!(str_is_blank("   "));
    assert!(str_is_blank(" \t\r "));
    assert!(!str_is_blank(" x "));
    assert!(!str_is_blank("."));
    // The same judgement `str::trim` makes.
    for s in ["", "  ", "\t", "a", " a ", "\u{a0}", "\u{3000}"] {
        assert_eq!(str_is_blank(s), s.trim().is_empty());
    }
}

#[test]
fn seeder_plan_writes_exactly_the_missing_files() {
    let one_present = SeedPresence { table: false, column: true, datatype: false };
    let plan = seed_missing_plan(&one_present);
    assert!(plan.table);
    assert!(!plan.column);
    assert!(plan.datatype);
    let none_present = SeedPresence { table: false, column: false, datatype: false };
    let all = seed_missing_plan(&none_present);
    assert!(all.table && all.column && all.datatype);
}

#[test]
fn seed_paths_and_payloads_are_fixed() {
    assert_eq!(seed_path(SeedKind::Table), "schema/table.tsv");
    assert_eq!(seed_path(SeedKind::Column), "schema/column.tsv");
    assert_eq!(seed_path(SeedKind::Datatype), "schema/datatype.tsv");
    assert!(seed_payload(SeedKind::Table).starts_with("table\tpath\tdescription\ttype\n"));
    assert!(seed_payload(SeedKind::Column).starts_with("table\tcolumn\t"));
    assert!(seed_payload(SeedKind::Datatype).starts_with("datatype\tparent\t"));
}

#[test]
fn paging_defaults_to_zero() {
    let p = Params { limit: None, offset: None, table: None };
    assert_eq!(effective_paging(&p), (0, 0));
    let q = Params { limit: Some(25), offset: Some(50), table: Some(String::from("column")) };
    assert_eq!(effective_paging(&q), (25, 50));
}

#[test]
fn table_route_statuses() {
    assert_eq!(table_response_status(true), 302);
    assert_eq!(table_response_status(false), 404);
}
