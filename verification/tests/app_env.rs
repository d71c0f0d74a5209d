use backup_pi::app_env::{AppEnv, EnvTimeZone, LogLevel};
use backup_pi::app_error::AppError;
use backup_pi::env_map::EnvHashMap;
use std::time::SystemTime;

fn map_of(pairs: &[(&str, &str)]) -> EnvHashMap {
    EnvHashMap::from_pairs(
        pairs
            .iter()
            .map(|(k, v)| (k.to_string(), v.to_string()))
            .collect(),
    )
}

#[test]
fn env_missing_env() {
    let mut map = EnvHashMap::new();
    map.insert("not_fish".to_owned(), "not_fish".to_owned());
    let result = AppEnv::parse_string("fish", &map);
    assert!(result.is_err());
    assert_eq!(result.unwrap_err().message(), "missing env: 'fish'");
}

#[test]
fn env_parse_string_valid() {
    let mut map = EnvHashMap::new();
    map.insert("LOCATION_SQLITE".to_owned(), "/alarms.db".to_owned());
    let result = AppEnv::parse_string("LOCATION_SQLITE", &map).unwrap();
    assert_eq!(result, "/alarms.db");
}

#[test]
fn env_parse_boolean_ok() {
    let mut map = EnvHashMap::new();
    map.insert("valid_true".to_owned(), "true".to_owned());
    map.insert("valid_false".to_owned(), "false".to_owned());
    map.insert("invalid_but_false".to_owned(), "as".to_owned());
    let result01 = AppEnv::parse_boolean("valid_true", &map);
    let result02 = AppEnv::parse_boolean("valid_false", &map);
    let result03 = AppEnv::parse_boolean("invalid_but_false", &map);
    let result04 = AppEnv::parse_boolean("missing", &map);
    assert!(result01);
    assert!(!result02);
    assert!(!result03);
    assert!(!result04);
}

#[test]
fn env_check_file_exists_ok() {
    let result = AppEnv::check_file_exists("./src".to_owned(), true);
    assert!(result.is_ok());
    assert_eq!(result.unwrap(), "./src");

    let result = AppEnv::check_file_exists("./Cargo.toml".to_owned(), true);
    assert!(result.is_ok());
    assert_eq!(result.unwrap(), "./Cargo.toml");
}

#[test]
fn env_check_file_exists_err() {
    let result = AppEnv::check_file_exists(
        "./some_random_folder".to_owned(),
        false,
    );
    assert!(result.is_err());
    match result.unwrap_err() {
        AppError::FileNotFound(value) => assert_eq!(value, "./some_random_folder"),
        _ => unreachable!(),
    };

    let result = AppEnv::check_file_exists(
        "./some_random_file.txt".to_owned(),
        false,
    );
    assert!(result.is_err());
    match result.unwrap_err() {
        AppError::FileNotFound(value) => assert_eq!(value, "./some_random_file.txt"),
        _ => unreachable!(),
    };
}

#[test]
fn env_parse_log_valid() {
    let map = map_of(&[("RANDOM_STRING", "123")]);
    assert_eq!(AppEnv::parse_log(&map), LogLevel::Info);

    let map = map_of(&[("LOG_DEBUG", "false")]);
    assert_eq!(AppEnv::parse_log(&map), LogLevel::Info);

    let map = map_of(&[("LOG_TRACE", "false")]);
    assert_eq!(AppEnv::parse_log(&map), LogLevel::Info);

    let map = map_of(&[("LOG_DEBUG", "false"), ("LOG_TRACE", "false")]);
    assert_eq!(AppEnv::parse_log(&map), LogLevel::Info);

    let map = map_of(&[("LOG_DEBUG", "true"), ("LOG_TRACE", "false")]);
    assert_eq!(AppEnv::parse_log(&map), LogLevel::Debug);

    let map = map_of(&[("LOG_DEBUG", "true"), ("LOG_TRACE", "true")]);
    assert_eq!(AppEnv::parse_log(&map), LogLevel::Trace);

    let map = map_of(&[("LOG_DEBUG", "false"), ("LOG_TRACE", "true")]);
    assert_eq!(AppEnv::parse_log(&map), LogLevel::Trace);
}

#[test]
fn env_parse_timezone_ok() {
    let mut map = EnvHashMap::new();
    map.insert("TIMEZONE".to_owned(), "America/New_York".to_owned());
    let result = AppEnv::parse_timezone(&map);
    assert_eq!(result.name(), "America/New_York");

    let mut map = EnvHashMap::new();
    map.insert("TIMEZONE".to_owned(), "Europe/Berlin".to_owned());
    let result = AppEnv::parse_timezone(&map);
    assert_eq!(result.name(), "Europe/Berlin");

    let map = EnvHashMap::new();
    let result = AppEnv::parse_timezone(&map);
    assert_eq!(result.name(), "Etc/UTC");
}

#[test]
fn env_parse_timezone_err() {
    let mut map = EnvHashMap::new();
    map.insert("TIMEZONE".to_owned(), "america/New_York".to_owned());
    let result = AppEnv::parse_timezone(&map);
    assert_eq!(result.name(), "Etc/UTC");

    let map = EnvHashMap::new();
    let result = AppEnv::parse_timezone(&map);
    assert_eq!(result.name(), "Etc/UTC");
}

#[test]
fn env_parse_dl_ok() {
    let mut map = EnvHashMap::new();
    map.insert("DL_TIME".to_owned(), "0445".to_owned());
    assert_eq!(AppEnv::parse_download_time(&map), (4, 45));

    map.insert("DL_TIME".to_owned(), "2122".to_owned());
    assert_eq!(AppEnv::parse_download_time(&map), (21, 22));

    map.insert("DL_TIME".to_owned(), "TIME".to_owned());
    assert_eq!(AppEnv::parse_download_time(&map), (3, 0));

    map.insert("DL_TIME".to_owned(), "0565".to_owned());
    assert_eq!(AppEnv::parse_download_time(&map), (3, 0));

    map.insert("DL_TIME".to_owned(), "3115".to_owned());
    assert_eq!(AppEnv::parse_download_time(&map), (3, 0));

    map.insert("LL_TIME".to_owned(), "3115".to_owned());
    assert_eq!(AppEnv::parse_download_time(&map), (3, 0));
}

#[test]
fn env_panic_appenv() {
    let result = AppEnv::generate(&EnvHashMap::new(), SystemTime::now(), false);
    assert!(result.is_err());
}

#[test]
fn download_time_edge_cases() {
    let mut map = EnvHashMap::new();
    assert_eq!(AppEnv::parse_download_time(&map), (3, 0));
    map.insert("DL_TIME".to_owned(), "2459".to_owned());
    assert_eq!(AppEnv::parse_download_time(&map), (24, 59));
    map.insert("DL_TIME".to_owned(), "2500".to_owned());
    assert_eq!(AppEnv::parse_download_time(&map), (3, 0));
    map.insert("DL_TIME".to_owned(), "+7+8".to_owned());
    assert_eq!(AppEnv::parse_download_time(&map), (7, 8));
    map.insert("DL_TIME".to_owned(), "0600030".to_owned());
    assert_eq!(AppEnv::parse_download_time(&map), (6, 30));
    map.insert("DL_TIME".to_owned(), "0630000".to_owned());
    assert_eq!(AppEnv::parse_download_time(&map), (6, 0));
    map.insert("DL_TIME".to_owned(), "06256".to_owned());
    assert_eq!(AppEnv::parse_download_time(&map), (6, 0));
    map.insert("DL_TIME".to_owned(), "12".to_owned());
    assert_eq!(AppEnv::parse_download_time(&map), (12, 0));
    map.insert("DL_TIME".to_owned(), "é15".to_owned());
    assert_eq!(AppEnv::parse_download_time(&map), (3, 15));
}

fn full_env() -> EnvHashMap {
    map_of(&[
        ("LOCATION_BACKUP", "/backups"),
        ("WS_ADDRESS", "wss://example.com"),
        ("WS_APIKEY", "key"),
        ("WS_PASSWORD", "pass"),
        ("WS_TOKEN_ADDRESS", "https://example.com/token"),
        ("TIMEZONE", "Europe/Berlin"),
        ("DL_TIME", "0130"),
        ("LOG_DEBUG", "true"),
    ])
}

#[test]
fn generate_reads_every_variable() {
    let env = AppEnv::generate(&full_env(), SystemTime::now(), true).unwrap();
    assert_eq!(env.download_time, (1, 30));
    assert_eq!(env.location_backup, "/backups");
    assert_eq!(env.log_level, LogLevel::Debug);
    assert_eq!(env.timezone.name(), "Europe/Berlin");
    assert_eq!(env.ws_address, "wss://example.com");
    assert_eq!(env.ws_apikey, "key");
    assert_eq!(env.ws_password, "pass");
    assert_eq!(env.ws_token_address, "https://example.com/token");
}

#[test]
fn generate_reports_first_problem() {
    match AppEnv::generate(&full_env(), SystemTime::now(), false) {
        Err(AppError::FileNotFound(name)) => assert_eq!(name, "/backups"),
        _ => unreachable!(),
    }
    let map_without = map_of(&[("WS_APIKEY", "key"), ("LOCATION_BACKUP", "/b")]);
    match AppEnv::generate(&map_without, SystemTime::now(), true) {
        Err(AppError::MissingEnv(name)) => assert_eq!(name, "WS_ADDRESS"),
        _ => unreachable!(),
    }
    match AppEnv::generate(&EnvHashMap::new(), SystemTime::now(), true) {
        Err(AppError::MissingEnv(name)) => assert_eq!(name, "LOCATION_BACKUP"),
        _ => unreachable!(),
    }
    let partial = map_of(&[
        ("LOCATION_BACKUP", "/b"),
        ("WS_ADDRESS", "a"),
        ("WS_APIKEY", "k"),
        ("WS_PASSWORD", "p"),
    ]);
    match AppEnv::generate(&partial, SystemTime::now(), true) {
        Err(AppError::MissingEnv(name)) => assert_eq!(name, "WS_TOKEN_ADDRESS"),
        _ => unreachable!(),
    }
}

#[test]
fn timezone_offsets() {
    let utc = EnvTimeZone::new("Etc/UTC");
    assert_eq!(utc.offset_at(1_546_300_800), 0);
    let berlin = EnvTimeZone::new("Europe/Berlin");
    // 2019-01-01 00:00 UTC: winter time, one hour ahead.
    assert_eq!(berlin.offset_at(1_546_300_800), 3600);
    // 2019-07-01 00:00 UTC: summer time, two hours ahead.
    assert_eq!(berlin.offset_at(1_561_939_200), 7200);
    let unknown = EnvTimeZone::new("Nowhere/Special");
    assert_eq!(unknown.name(), "Etc/UTC");
    let offset = berlin.get_offset();
    assert!(offset == 3600 || offset == 7200);
}

#[test]
fn error_messages() {
    assert_eq!(AppError::FileNotFound("x".to_owned()).message(), "File/Directory not found: 'x'");
    assert_eq!(AppError::MissingEnv("y".to_owned()).message(), "missing env: 'y'");
    assert_eq!(AppError::FSWrite.message(), "FS Write error");
    assert_eq!(AppError::Reqwest.message(), "Reqwest Error");
    assert_eq!(AppError::TungsteniteConnect.message(), "WS Connect");
    assert_eq!(AppError::WsStatus.message(), "Invalid WS Status Code");
}

#[test]
fn env_map_insert_and_get() {
    let mut map = EnvHashMap::new();
    assert!(map.get("a").is_none());
    map.insert("a".to_owned(), "1".to_owned());
    map.insert("b".to_owned(), "2".to_owned());
    map.insert("a".to_owned(), "3".to_owned());
    assert_eq!(map.get("a").unwrap(), "3");
    assert_eq!(map.get("b").unwrap(), "2");
    let later_wins = map_of(&[("k", "first"), ("k", "second")]);
    assert_eq!(later_wins.get("k").unwrap(), "second");
}
