use icalbot::state::{AppState, EnvSetting};
use icalbot::web::{base_path, health_check, hello_world, ical_service, IcalOutcome};

#[test]
fn base_path_of_various_urls() {
    assert_eq!(base_path("http://localhost:8080"), "");
    assert_eq!(base_path("http://localhost:8080/"), "");
    assert_eq!(base_path("https://example.com/calendar"), "/calendar");
    assert_eq!(base_path("https://example.com/a/b//"), "/a/b");
    assert_eq!(base_path("0.0.0.0:29273"), "");
    assert_eq!(base_path("example.com/cal"), "/cal");
    assert_eq!(base_path(""), "");
}

#[test]
fn calendar_url_path_matches_mounted_route() {
    for base in ["https://example.com/cal/", "http://h:1", "0.0.0.0:29273", "https://e.org/a/b"] {
        let st = AppState::new("/s".to_string(), EnvSetting::Unset, None, None, Some(base.to_string()))
            .unwrap();
        let url = st.calendar_url("abc-1");
        let path = {
            let after = url.find("://").map(|i| i + 3).unwrap_or(0);
            url[after..].find('/').map(|i| url[after + i..].to_string()).unwrap_or_default()
        };
        assert_eq!(path, format!("{}/ical/abc-1/ical.ics", base_path(&st.base_url)));
    }
}

#[test]
fn health_check_replies() {
    let ok = health_check(true);
    assert_eq!(ok.status, 200);
    assert_eq!(ok.body, "OK");
    let bad = health_check(false);
    assert_eq!(bad.status, 500);
    assert_eq!(bad.body, "Unknown error");
}

#[test]
fn hello_page_shows_version() {
    assert_eq!(
        hello_world("1.2.3"),
        "<!DOCTYPE html><html><head><title>iCalBot</title></head><body><h1>Hello World</h1><p>Version: 1.2.3</p></body></html>"
    );
}

#[test]
fn ical_service_replies() {
    let r = ical_service(IcalOutcome::LookupFailed);
    assert_eq!((r.status, r.body.as_str()), (500, "Internal server error"));
    let r = ical_service(IcalOutcome::NotFound);
    assert_eq!((r.status, r.body.as_str()), (404, "Calendar not found"));
    let r = ical_service(IcalOutcome::RenderFailed);
    assert_eq!((r.status, r.body.as_str()), (500, "Failed to generate calendar"));
    let r = ical_service(IcalOutcome::Rendered("BEGIN:VCALENDAR".to_string()));
    assert_eq!(r.status, 200);
    assert_eq!(r.body, "BEGIN:VCALENDAR");
    assert_eq!(r.content_type.as_deref(), Some("text/calendar; charset=utf-8"));
    assert_eq!(r.content_disposition.as_deref(), Some("inline; filename=\"ical.ics\""));
}
