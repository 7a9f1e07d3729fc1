use icalbot::entities::{EventDetails, GuildRecord, ScheduledEventData};
use icalbot::time::Timestamp;

fn sample_event() -> EventDetails {
    EventDetails {
        event_id: "11".to_string(),
        guild_id: "22".to_string(),
        title: "Board games".to_string(),
        description: Some("Bring snacks".to_string()),
        location: None,
        deleted: false,
        sequence: 0,
        start_time: Timestamp::new(1_700_000_000, 0),
        end_time: Timestamp::new(1_700_003_600, 0),
        created_at: Timestamp::new(1_690_000_000, 0),
        updated_at: Timestamp::new(1_690_000_500, 0),
    }
}

#[test]
fn url_safe_discriminators() {
    assert!(GuildRecord::is_url_safe("abc-DEF_123.~"));
    assert!(!GuildRecord::is_url_safe(""));
    assert!(!GuildRecord::is_url_safe("has space"));
    assert!(!GuildRecord::is_url_safe("slash/"));
    assert!(!GuildRecord::is_url_safe("ümlaut"));
    assert!(!GuildRecord::is_url_safe("a?b"));
}

#[test]
fn generated_discriminators_are_32_hex_chars_and_url_safe() {
    for _ in 0..50 {
        let d = GuildRecord::generate_discriminator();
        assert_eq!(d.len(), 32);
        assert!(d.chars().all(|c| c.is_ascii_hexdigit() && !c.is_ascii_uppercase()));
        assert!(GuildRecord::is_url_safe(&d));
    }
}

#[test]
fn guild_record_from_id() {
    let g = GuildRecord::from_id(123456789012345678);
    assert_eq!(g.guild_id, "123456789012345678");
    assert_eq!(g.name, "");
    assert!(g.discriminator.is_none());
    assert_eq!(g.created_at, g.updated_at);
}

#[test]
fn guild_record_from_guild() {
    let g = GuildRecord::from_guild(42, "Chess club");
    assert_eq!(g.guild_id, "42");
    assert_eq!(g.name, "Chess club");
    assert!(g.discriminator.is_none());
}

#[test]
fn event_from_scheduled_event_without_end() {
    let data = ScheduledEventData {
        id: 99,
        guild_id: 7,
        name: "Meetup".to_string(),
        description: None,
        location: Some("Library".to_string()),
        start_time: Timestamp::new(1_700_000_000, 0),
        end_time: None,
    };
    let e = EventDetails::from_scheduled_event(data);
    assert_eq!(e.event_id, "99");
    assert_eq!(e.guild_id, "7");
    assert_eq!(e.title, "Meetup");
    assert_eq!(e.location.as_deref(), Some("Library"));
    assert_eq!(e.end_time, e.start_time);
    assert!(!e.deleted);
    assert_eq!(e.sequence, 0);
    assert_eq!(e.created_at, e.updated_at);
}

#[test]
fn event_from_scheduled_event_with_end() {
    let data = ScheduledEventData {
        id: 1,
        guild_id: 2,
        name: "x".to_string(),
        description: Some("d".to_string()),
        location: None,
        start_time: Timestamp::new(10, 0),
        end_time: Some(Timestamp::new(20, 5)),
    };
    let e = EventDetails::from_scheduled_event(data);
    assert_eq!(e.end_time, Timestamp::new(20, 5));
    assert_eq!(e.description.as_deref(), Some("d"));
}

#[test]
fn refresh_without_changes_only_copies_times() {
    let stored = sample_event();
    let mut incoming = sample_event();
    incoming.created_at = Timestamp::new(1, 0);
    incoming.updated_at = Timestamp::new(2, 0);
    let changed = incoming.refresh(&stored, false);
    assert!(!changed);
    assert!(incoming.same_as(&stored));
}

#[test]
fn refresh_adopts_the_stored_version() {
    let stored = sample_event();
    let mut incoming = sample_event();
    incoming.title = "Renamed".to_string();
    assert!(incoming.refresh(&stored, false));
    assert_eq!(incoming.title, "Board games");
    assert!(incoming.same_as(&stored));
    // A second refresh against the same version reports nothing.
    assert!(!incoming.refresh(&stored, false));
}

#[test]
fn check_only_refresh_keeps_content() {
    let stored = sample_event();
    let mut incoming = sample_event();
    incoming.location = Some("Park".to_string());
    incoming.created_at = Timestamp::new(5, 0);
    assert!(incoming.refresh(&stored, true));
    assert_eq!(incoming.location.as_deref(), Some("Park"));
    assert_eq!(incoming.created_at, stored.created_at);
    assert_eq!(incoming.updated_at, stored.updated_at);
}

#[test]
fn clone_keeps_every_field() {
    let e = sample_event();
    assert!(e.clone().same_as(&e));
    let g = GuildRecord::from_guild(1, "g");
    let h = g.clone();
    assert_eq!(h.guild_id, g.guild_id);
    assert_eq!(h.created_at, g.created_at);
}

#[test]
fn record_equality_compares_every_field() {
    let a = sample_event();
    let mut b = sample_event();
    assert_eq!(a, b);
    b.sequence = 3;
    assert_ne!(a, b);
    let mut c = sample_event();
    c.description = None;
    assert_ne!(a, c);
    let g = GuildRecord::from_guild(3, "x");
    let mut h = g.clone();
    assert_eq!(g, h);
    h.discriminator = Some("d".to_string());
    assert_ne!(g, h);
}
