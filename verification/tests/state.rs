use icalbot::state::{AppState, EnvSetting};

fn state_with(base: Option<&str>) -> AppState {
    AppState::new(
        "/var/lib/icalbot".to_string(),
        EnvSetting::Unset,
        None,
        None,
        base.map(|b| b.to_string()),
    )
    .unwrap()
}

#[test]
fn state_directory_defaults_to_icalbot() {
    assert_eq!(AppState::state_directory_setting(None), "icalbot");
    assert_eq!(AppState::state_directory_setting(Some("/tmp/x".to_string())), "/tmp/x");
}

#[test]
fn database_location_with_sqlite_prefix() {
    let loc = AppState::database_location(EnvSetting::Present("sqlite:/data/bot.db".to_string()), "/s")
        .unwrap();
    assert_eq!(loc.filename, "/data/bot.db");
    assert_eq!(loc.url, "sqlite:/data/bot.db");
}

#[test]
fn database_location_with_plain_path() {
    let loc = AppState::database_location(EnvSetting::Present("bot.db".to_string()), "/s").unwrap();
    assert_eq!(loc.filename, "bot.db");
    assert_eq!(loc.url, "sqlite:bot.db");
}

#[test]
fn database_location_defaults_to_state_directory() {
    let loc = AppState::database_location(EnvSetting::Unset, "/var/lib/icalbot").unwrap();
    assert_eq!(loc.filename, "/var/lib/icalbot/db.sqlite");
    assert_eq!(loc.url, "sqlite:/var/lib/icalbot/db.sqlite");
    let root = AppState::database_location(EnvSetting::Unset, "/").unwrap();
    assert_eq!(root.filename, "/db.sqlite");
}

#[test]
fn unreadable_database_setting_is_an_error() {
    let err = AppState::database_location(EnvSetting::Unreadable("not unicode".to_string()), "/s")
        .err()
        .unwrap();
    assert_eq!(err.to_string(), "Error while getting environment variable DATABASE_URL: not unicode");
    let err2 = AppState::new(
        "/s".to_string(),
        EnvSetting::Unreadable("bad".to_string()),
        None,
        None,
        None,
    )
    .err()
    .unwrap();
    assert_eq!(err2.message(), "Error while getting environment variable DATABASE_URL: bad");
}

#[test]
fn defaults_for_listen_address_and_base_url() {
    let st = state_with(None);
    assert_eq!(st.listen_address(None, None), "0.0.0.0:29273");
    assert_eq!(st.base_url, "0.0.0.0:29273");
    assert_eq!(st.database_url, "sqlite:/var/lib/icalbot/db.sqlite");
    assert_eq!(st.state_directory, "/var/lib/icalbot");
}

#[test]
fn listen_address_from_settings() {
    let st = AppState::new(
        "/s".to_string(),
        EnvSetting::Unset,
        Some("127.0.0.1".to_string()),
        Some("8080".to_string()),
        None,
    )
    .unwrap();
    assert_eq!(
        st.listen_address(Some("127.0.0.1".to_string()), Some("8080".to_string())),
        "127.0.0.1:8080"
    );
    assert_eq!(st.base_url, "127.0.0.1:8080");
    // The address follows the settings as they stand when it is asked for.
    assert_eq!(
        st.listen_address(Some("10.0.0.2".to_string()), None),
        "10.0.0.2:29273"
    );
}

#[test]
fn base_url_loses_trailing_slashes() {
    let st = state_with(Some("https://cal.example.com/bot///"));
    assert_eq!(st.base_url, "https://cal.example.com/bot");
    assert_eq!(
        AppState::base_url_setting("h", "1", Some("http://x/".to_string())),
        "http://x"
    );
}

#[test]
fn calendar_url_format() {
    let st = state_with(Some("https://cal.example.com/"));
    assert_eq!(st.calendar_url("abc123"), "https://cal.example.com/ical/abc123/ical.ics");
}
