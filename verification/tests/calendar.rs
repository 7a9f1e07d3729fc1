use icalbot::calendar::{calendar_feed_text, make_calendar};
use icalbot::calendar_bot::{format_timestamp, EventDetails as EventView};
use icalbot::entities::{EventDetails, ScheduledEventData};
use icalbot::time::Timestamp;

fn event(title: &str, description: Option<&str>, location: Option<&str>) -> EventDetails {
    EventDetails {
        event_id: "1".to_string(),
        guild_id: "2".to_string(),
        title: title.to_string(),
        description: description.map(|s| s.to_string()),
        location: location.map(|s| s.to_string()),
        deleted: false,
        sequence: 0,
        start_time: Timestamp::new(1_704_067_200, 0),
        end_time: Timestamp::new(1_704_070_800, 0),
        created_at: Timestamp::new(1_700_000_000, 0),
        updated_at: Timestamp::new(1_700_000_060, 0),
    }
}

#[test]
fn feed_text_is_one_framed_calendar() {
    let events = vec![event("Game night", Some("Bring dice"), None)];
    let text = calendar_feed_text(Some("Chess Club"), &events).unwrap();
    assert!(text.starts_with("BEGIN:VCALENDAR\r\n"));
    assert!(text.ends_with("END:VCALENDAR\r\n"));
    assert!(text.contains("SUMMARY:Game night\r\n"));
    assert!(text.contains("TRANSP:OPAQUE\r\n"));
    assert!(text.contains("X-WR-CALNAME:Chess Club\r\n"));
    assert!(text.contains("REFRESH-INTERVAL;VALUE=DURATION:PT86400S\r\n"));
    assert_eq!(text.matches("BEGIN:VEVENT\r\n").count(), 1);
    let two = vec![event("A", None, None), event("B", None, Some("Hall"))];
    let text2 = calendar_feed_text(Some("Club"), &two).unwrap();
    assert_eq!(text2.matches("BEGIN:VEVENT\r\n").count(), 2);
    assert_eq!(text2.matches("END:VEVENT\r\n").count(), 2);
    assert!(text2.find("SUMMARY:A\r\n").unwrap() < text2.find("SUMMARY:B\r\n").unwrap());
    let empty = calendar_feed_text(Some("Quiet"), &Vec::new()).unwrap();
    assert!(empty.starts_with("BEGIN:VCALENDAR\r\n") && empty.ends_with("END:VCALENDAR\r\n"));
    assert!(!empty.contains("BEGIN:VEVENT"));
    let err = calendar_feed_text(None, &events).err().unwrap();
    assert_eq!(err.message(), "Cannot make a calendar for a nameless guild.");
}

#[test]
fn nameless_guild_has_no_calendar() {
    let err = make_calendar(None, &vec![]).err().unwrap();
    assert_eq!(err.message(), "Cannot make a calendar for a nameless guild.");
}

#[test]
fn calendar_header_and_events() {
    let events = vec![event("Game night", Some("Bring dice"), None), event("Hike", None, Some("Trailhead"))];
    let cal = make_calendar(Some("Chess Club"), &events).unwrap();
    assert_eq!(cal.get_name(), Some("Chess Club"));
    assert_eq!(cal.get_timezone(), Some("America/Edmonton"));
    assert_eq!(cal.property_value("X-PUBLISHED-TTL"), Some("PT86400S"));
    assert_eq!(cal.property_value("VERSION"), Some("2.0"));
    let text = cal.to_string();
    assert!(text.contains("SUMMARY:Game night"));
    assert!(text.contains("DESCRIPTION:Bring dice"));
    assert!(text.contains("LOCATION:Trailhead"));
    assert!(text.contains("STATUS:CONFIRMED"));
    assert_eq!(text.matches("TRANSP:OPAQUE").count(), 2);
    assert!(text.contains("DTSTART:20240101T000000Z"));
    assert!(text.contains("DTEND:20240101T010000Z"));
    assert!(text.contains("LAST-MODIFIED:20231114T221420Z"));
    assert_eq!(cal.components.len(), 2);
}

#[test]
fn rfc3339_timestamps() {
    assert_eq!(format_timestamp(&Timestamp::new(0, 0)), "1970-01-01T00:00:00+00:00");
    assert_eq!(format_timestamp(&Timestamp::new(1_704_067_200, 999)), "2024-01-01T00:00:00+00:00");
}

#[test]
fn scheduled_event_view() {
    let data = ScheduledEventData {
        id: 555,
        guild_id: 1,
        name: "Talk".to_string(),
        description: Some("About Rust".to_string()),
        location: None,
        start_time: Timestamp::new(1_704_067_200, 0),
        end_time: Some(Timestamp::new(1_704_070_800, 0)),
    };
    let v = EventView::new(data);
    assert_eq!(v.event_id(), "555");
    assert_eq!(v.name(), "Talk");
    assert_eq!(v.description().as_deref(), Some("About Rust"));
    assert_eq!(v.location(), None);
    assert_eq!(v.start_time(), "2024-01-01T00:00:00+00:00");
    assert_eq!(v.end_time().as_deref(), Some("2024-01-01T01:00:00+00:00"));
    assert_eq!(v.duration_seconds(), 3600);
    let open_ended = EventView::new(ScheduledEventData {
        id: 1,
        guild_id: 1,
        name: "x".to_string(),
        description: None,
        location: None,
        start_time: Timestamp::new(5, 0),
        end_time: None,
    });
    assert_eq!(open_ended.end_time(), None);
    assert_eq!(open_ended.duration_seconds(), 0);
}

#[test]
fn timestamps_in_range() {
    assert!(Timestamp::new(0, 0).is_representable());
    assert!(Timestamp::new(-8334601315200, 0).is_representable());
    assert!(!Timestamp::new(-8334601315201, 0).is_representable());
    assert!(Timestamp::new(8210266876799, 999_999_999).is_representable());
    assert!(!Timestamp::new(8210266876800, 0).is_representable());
    assert!(Timestamp::new(59, 1_500_000_000).is_representable());
    assert!(!Timestamp::new(58, 1_500_000_000).is_representable());
    assert!(Timestamp::new(-1, 1_500_000_000).is_representable());
    assert!(!Timestamp::new(-2, 1_500_000_000).is_representable());
    assert!(icalbot::time::now().is_representable());
}

#[test]
fn event_recording_bot_configuration() {
    use_bot_configuration();
}

fn use_bot_configuration() {
    assert_eq!(
        icalbot::calendar_bot::CalendarBot::token_setting(None).err().unwrap().message(),
        "Environment variable BOT_TOKEN is not set"
    );
    assert_eq!(icalbot::calendar_bot::CalendarBot::token_setting(Some("t".to_string())).unwrap(), "t");
    assert_eq!(icalbot::calendar_bot::CalendarBot::state_directory_setting(None), ".discordcalendarbot");
    let bot = icalbot::calendar_bot::CalendarBot::new(
        "t".to_string(),
        "/state".to_string(),
        Ok("sqlite:/db/x.sqlite".to_string()),
    )
    .unwrap();
    assert_eq!(bot.database_filename, "/db/x.sqlite");
    assert_eq!(bot.database_url, "sqlite:/db/x.sqlite");
    let plain = icalbot::calendar_bot::CalendarBot::new("t".to_string(), "/state".to_string(), Ok("x.db".to_string()))
        .unwrap();
    assert_eq!(plain.database_url, "sqlite:x.db");
    let err = icalbot::calendar_bot::CalendarBot::new(
        "t".to_string(),
        "/state".to_string(),
        Err("environment variable not found".to_string()),
    )
    .err()
    .unwrap();
    assert_eq!(err.message(), "Environment variable DATABASE_URL is not set: environment variable not found");
}
