use wsprrs_web::config::{parse_ignore_callsigns, Config, EnvVars};

fn empty_env() -> EnvVars {
    EnvVars {
        clickhouse_url: None,
        clickhouse_db: None,
        clickhouse_table: None,
        global_db: None,
        global_table: None,
        clickhouse_user: None,
        clickhouse_password: None,
        my_grid: None,
        time_window_hours: None,
        spot_limit: None,
        global_spot_limit: None,
        ignore_callsigns: None,
        detail_zoom: None,
    }
}

#[test]
fn defaults_when_unset() {
    let c = Config::from_env_vars(empty_env());
    assert_eq!(c.clickhouse_url, "http://10.174.3.247:8123");
    assert_eq!(c.clickhouse_db, "wsprrs");
    assert_eq!(c.clickhouse_table, "wspr_spots");
    assert_eq!(c.global_table, "global_spots");
    assert_eq!(c.global_db, None);
    assert_eq!(c.time_window_hours, 1);
    assert_eq!(c.spot_limit, 5_000);
    assert_eq!(c.global_spot_limit, 10_000);
    assert!(c.ignore_callsigns.is_empty());
    assert_eq!(c.detail_zoom, 10);
    assert_eq!(c.global_table_qualified(), "global_spots");
}

#[test]
fn values_when_set() {
    let mut e = empty_env();
    e.global_db = Some("rx888-clickhouse".to_string());
    e.time_window_hours = Some("24".to_string());
    e.spot_limit = Some("not a number".to_string());
    e.global_spot_limit = Some("50000".to_string());
    e.detail_zoom = Some("300".to_string());
    e.ignore_callsigns = Some(" w3pog ,N0CALL,, kd9foo".to_string());
    e.my_grid = Some("FN20eg".to_string());
    let c = Config::from_env_vars(e);
    assert_eq!(c.time_window_hours, 24);
    assert_eq!(c.spot_limit, 5_000);
    assert_eq!(c.global_spot_limit, 50_000);
    assert_eq!(c.detail_zoom, 10);
    assert_eq!(c.ignore_callsigns, vec!["W3POG", "N0CALL", "KD9FOO"]);
    assert_eq!(c.my_grid, Some("FN20eg".to_string()));
    assert_eq!(c.global_table_qualified(), "rx888-clickhouse.global_spots");
}

#[test]
fn ignore_list_parsing() {
    assert!(parse_ignore_callsigns("").is_empty());
    assert!(parse_ignore_callsigns(" , ,").is_empty());
    assert_eq!(parse_ignore_callsigns("w3pog"), vec!["W3POG"]);
    // Unicode upper-casing, as `str::to_uppercase` does.
    assert_eq!(parse_ignore_callsigns("straße"), vec!["STRASSE"]);
}

#[test]
fn client_builds() {
    let mut e = empty_env();
    e.clickhouse_user = Some("u".to_string());
    e.clickhouse_password = Some("p".to_string());
    let c = Config::from_env_vars(e);
    let _client = c.clickhouse_client();
}
