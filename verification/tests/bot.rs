use icalbot::bot::{BotAction, CalendarBot, Command, GuildLookup, RefreshResult};
use icalbot::entities::GuildRecord;
use icalbot::errors::BotError;
use icalbot::state::{AppState, EnvSetting};

fn bot() -> CalendarBot {
    let st = AppState::new(
        "/s".to_string(),
        EnvSetting::Unset,
        None,
        None,
        Some("https://cal.example.com".to_string()),
    )
    .unwrap();
    CalendarBot::new(st, "v1.0".to_string(), Some("SECRET-REDACTED".to_string())).unwrap()
}

fn kind(content: &str) -> Option<String> {
    Command::parse(content).map(|c| match c {
        Command::Refresh => "refresh".to_string(),
        Command::Version => "version".to_string(),
        Command::ShowCalendar => "show".to_string(),
        Command::Reset => "reset".to_string(),
        Command::SetId(id) => format!("set:{}", id),
        Command::SetUsage => "set-usage".to_string(),
        Command::SetInvalid => "set-invalid".to_string(),
        Command::Delete => "delete".to_string(),
        Command::DumpCalendar => "dump".to_string(),
        Command::Help => "help".to_string(),
        Command::Unknown(t) => format!("unknown:{}", t),
    })
}

#[test]
fn messages_without_the_prefix_are_ignored() {
    assert_eq!(kind("hello"), None);
    assert_eq!(kind(" !icalbot"), None);
    assert_eq!(kind("!ical"), None);
}

#[test]
fn every_command_is_recognised() {
    assert_eq!(kind("!icalbot").as_deref(), Some("show"));
    assert_eq!(kind("!icalbot   ").as_deref(), Some("show"));
    assert_eq!(kind("!icalbot refresh").as_deref(), Some("refresh"));
    assert_eq!(kind("!icalbot version").as_deref(), Some("version"));
    assert_eq!(kind("!icalbot reset").as_deref(), Some("reset"));
    assert_eq!(kind("!icalbot delete").as_deref(), Some("delete"));
    assert_eq!(kind("!icalbot dump_calendar").as_deref(), Some("dump"));
    assert_eq!(kind("!icalbot help\n").as_deref(), Some("help"));
    assert_eq!(kind("!icalbot  frobnicate ").as_deref(), Some("unknown:frobnicate"));
    assert_eq!(kind("!icalbot\thelp").as_deref(), Some("help"));
}

#[test]
fn prefix_must_stand_alone() {
    assert_eq!(kind("!icalbothelp"), None);
    assert_eq!(kind("!icalbotversion"), None);
    assert_eq!(kind("!icalbot-refresh"), None);
    assert_eq!(kind("!icalbot version").as_deref(), Some("version"));
}

#[test]
fn bot_keeps_the_configuration_it_was_given() {
    let b = bot();
    assert_eq!(b.state.base_url, "https://cal.example.com");
    assert_eq!(b.state.state_directory, "/s");
    assert_eq!(b.state.database_filename, "/s/db.sqlite");
    assert_eq!(b.state.database_url, "sqlite:/s/db.sqlite");
    assert_eq!(b.state.listen_address(None, None), "0.0.0.0:29273");
    assert_eq!(b.version, "v1.0");
}

#[test]
fn set_command_variants() {
    assert_eq!(kind("!icalbot set my-cal").as_deref(), Some("set:my-cal"));
    assert_eq!(kind("!icalbot set    my.cal_1~  ").as_deref(), Some("set:my.cal_1~"));
    assert_eq!(kind("!icalbot set").as_deref(), Some("set-usage"));
    assert_eq!(kind("!icalbot set   ").as_deref(), Some("set-usage"));
    assert_eq!(kind("!icalbot set a/b").as_deref(), Some("set-invalid"));
    assert_eq!(kind("!icalbot set two words").as_deref(), Some("set-invalid"));
    assert_eq!(kind("!icalbot settings").as_deref(), Some("unknown:settings"));
    assert_eq!(kind("!icalbot set\tx").as_deref(), Some("unknown:set\tx"));
}

#[test]
fn generated_discriminator_is_accepted_by_set() {
    let d = GuildRecord::generate_discriminator();
    assert_eq!(kind(&format!("!icalbot set {}", d)), Some(format!("set:{}", d)));
}

#[test]
fn bot_needs_a_token() {
    let st = AppState::new("/s".to_string(), EnvSetting::Unset, None, None, None).unwrap();
    let err = CalendarBot::new(st, "v".to_string(), None).err().unwrap();
    assert_eq!(err.message(), "Environment variable BOT_TOKEN is not set");
    let b = bot();
    assert_eq!(b.token, "SECRET-REDACTED");
    assert_eq!(b.version_reply(), "v1.0");
}

#[test]
fn counting_refreshed_events() {
    assert_eq!(CalendarBot::count_refreshed(&[]), 0);
    assert_eq!(CalendarBot::count_refreshed(&[true, false, true, true]), 3);
}

#[test]
fn refresh_replies() {
    let r = RefreshResult { total_events: 10, past_events: 4, future_events: 5, refreshed_events: 2 };
    assert_eq!(
        CalendarBot::refresh_reply(&Some(r)),
        "**Refresh complete**\nTotal events: 10\nPast events: 4\nFuture events: 5\nRefreshed events: 2"
    );
    assert_eq!(CalendarBot::refresh_reply(&None), "Failed to refresh events.");
}

#[test]
fn show_calendar_replies() {
    let b = bot();
    let mut g = GuildRecord::from_id(5);
    assert_eq!(
        b.show_calendar_reply(&GuildLookup::Found(g.clone())),
        "No calendar configured. Use `!icalbot reset` or `!icalbot set <id>` to create one."
    );
    g.discriminator = Some("abc".to_string());
    assert_eq!(
        b.show_calendar_reply(&GuildLookup::Found(g)),
        "Calendar URL: https://cal.example.com/ical/abc/ical.ics"
    );
    assert_eq!(b.show_calendar_reply(&GuildLookup::Missing), "Guild not found in the database.");
    assert_eq!(
        b.show_calendar_reply(&GuildLookup::Failed(BotError::new("db down".to_string()))),
        "Error looking up guild: db down"
    );
}

#[test]
fn discriminator_replies() {
    let b = bot();
    assert_eq!(
        b.discriminator_set_reply("xyz", &None),
        "Guild discriminator set to `xyz`\nCalendar URL: https://cal.example.com/ical/xyz/ical.ics"
    );
    assert_eq!(
        b.discriminator_set_reply("xyz", &Some(BotError::new("nope".to_string()))),
        "Failed to set discriminator: nope"
    );
    assert_eq!(CalendarBot::set_usage_reply(), "Usage: `!icalbot set <id>` — provide an ID to use.");
    assert_eq!(
        CalendarBot::set_invalid_reply(),
        "Invalid ID. The ID must contain only URL-safe characters (letters, digits, `-`, `.`, `_`, `~`)."
    );
    assert_eq!(CalendarBot::delete_reply(&None), "Calendar discriminator removed.");
    assert_eq!(
        CalendarBot::delete_reply(&Some(BotError::new("locked".to_string()))),
        "Failed to remove discriminator: locked"
    );
}

#[test]
fn dump_and_help_replies() {
    assert_eq!(
        CalendarBot::dump_calendar_reply(&Ok("CAL".to_string())),
        "```plaintext\nCAL\n```"
    );
    assert_eq!(
        CalendarBot::dump_calendar_reply(&Err(BotError::new("bad".to_string()))),
        "I had an error rendering your calendar...\n\n```plaintext\nbad\n```"
    );
    let help = CalendarBot::help_reply();
    assert!(help.starts_with("**iCalBot Commands**\n`!icalbot` — Show the calendar URL for this server\n"));
    assert!(help.ends_with("`!icalbot dump_calendar` — Print the raw iCalendar output"));
    assert_eq!(help.lines().count(), 9);
}

#[test]
fn planning_actions_for_commands() {
    let b = bot();
    let describe = |a: BotAction| match a {
        BotAction::Reply(t) => format!("reply:{}", t),
        BotAction::RefreshEvents => "refresh".to_string(),
        BotAction::LookupGuild => "lookup".to_string(),
        BotAction::StoreDiscriminator(d) => format!("store:{}", d),
        BotAction::ClearDiscriminator => "clear".to_string(),
        BotAction::RenderCalendar => "render".to_string(),
        BotAction::Ignore(t) => format!("ignore:{}", t),
    };
    assert_eq!(describe(b.plan(Command::Version)), "reply:v1.0");
    assert_eq!(describe(b.plan(Command::Refresh)), "refresh");
    assert_eq!(describe(b.plan(Command::ShowCalendar)), "lookup");
    assert_eq!(describe(b.plan(Command::SetId("abc".to_string()))), "store:abc");
    assert_eq!(describe(b.plan(Command::Delete)), "clear");
    assert_eq!(describe(b.plan(Command::DumpCalendar)), "render");
    assert_eq!(describe(b.plan(Command::Unknown("zz".to_string()))), "ignore:zz");
    assert!(describe(b.plan(Command::Help)).starts_with("reply:**iCalBot Commands**"));
    assert!(describe(b.plan(Command::SetUsage)).starts_with("reply:Usage:"));
    assert!(describe(b.plan(Command::SetInvalid)).starts_with("reply:Invalid ID."));
    match b.plan(Command::Reset) {
        BotAction::StoreDiscriminator(d) => {
            assert_eq!(d.len(), 32);
            assert!(GuildRecord::is_url_safe(&d));
        }
        _ => panic!("reset must store a discriminator"),
    }
}
