use nanobot::error::GetError;
use nanobot::error::NanobotError;

#[test]
fn get_error_keeps_its_message() {
    let e = GetError::new(String::from("row fetch failed"));
    assert_eq!(e.details(), "row fetch failed");
}

#[test]
fn get_error_from_string() {
    let e = GetError::from(String::from("boom"));
    assert_eq!(e.details(), "boom");
}

#[test]
fn get_error_from_io_error() {
    let io = std::io::Error::new(std::io::ErrorKind::NotFound, "missing file");
    let e = GetError::from_io_error(&io);
    assert!(e.details().contains("missing file"));
}

#[test]
fn get_error_from_csv_error() {
    let mut reader = csv::ReaderBuilder::new()
        .has_headers(false)
        .flexible(false)
        .from_reader("a,b\nc\n".as_bytes());
    let bad = reader
        .records()
        .find(|r| r.is_err())
        .expect("a row with the wrong width should error")
        .unwrap_err();
    let e = GetError::from_csv_error(&bad);
    assert!(!e.details().is_empty());
}

#[test]
fn get_error_from_sqlx_error() {
    let e = GetError::from_sqlx_error(&sqlx::Error::RowNotFound);
    assert!(e.details().contains("RowNotFound"));
}

#[test]
fn get_error_from_git_error() {
    let g = git2::Error::from_str("bad repository");
    let e = GetError::from_git_error(&g);
    assert!(e.details().contains("bad repository"));
}

#[test]
fn get_error_from_time_error() {
    let later = std::time::SystemTime::now() + std::time::Duration::from_secs(60);
    let bad = later.duration_since(std::time::SystemTime::now()).ok();
    // Build a real SystemTimeError by asking for a negative interval.
    let err = std::time::UNIX_EPOCH
        .duration_since(std::time::SystemTime::now())
        .expect_err("the epoch lies before now");
    assert!(bad.is_some());
    let e = GetError::from_time_error(&err);
    assert!(!e.details().is_empty());
}

#[test]
fn nanobot_error_wraps_get_error() {
    let e = NanobotError::from(GetError::new(String::from("inner")));
    match e {
        NanobotError::GetError(g) => assert_eq!(g.details(), "inner"),
        other => panic!("expected the GetError variant, got {:?}", other),
    }
}

#[test]
fn nanobot_error_wraps_valve_engine_error() {
    let e = NanobotError::from(sqlx::Error::RowNotFound);
    assert!(matches!(e, NanobotError::ValveError(_)));
}

#[test]
fn nanobot_error_wraps_toml_error() {
    let bad = toml::from_str::<toml::Value>("= not toml").expect_err("invalid toml");
    let e = NanobotError::from(bad);
    assert!(matches!(e, NanobotError::TomlError(_)));
}
