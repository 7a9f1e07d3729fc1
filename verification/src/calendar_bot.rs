//! A bot that records scheduled events with their fields rendered as text, and
//! the view of an event that renders them.
use vstd::prelude::*;

use crate::entities::{clone_opt, opt_view, ScheduledEventData};
use crate::errors::BotError;
use crate::state::database_location_spec;
use crate::state::{AppState, EnvSetting};
use crate::text::{concat2, decimal, owned, u64_to_decimal};
use crate::time::{representable, Timestamp};

verus! {

/// The RFC 3339 text of a point in time with whole seconds and a numeric UTC
/// offset, as chrono writes it with `SecondsFormat::Secs` and `use_z == false`
/// (for example `2024-05-01T18:30:00+00:00`).
pub uninterp spec fn rfc3339_seconds_text(secs: i64, nanos: u32) -> Seq<char>;

/// `chrono::DateTime::to_rfc3339_opts(SecondsFormat::Secs, false)` of the point
/// in time.
#[verifier::external_body]
fn rfc3339_seconds(t: Timestamp) -> (s: String)
    requires
        representable(t),
    ensures
        s@ == rfc3339_seconds_text(t.secs, t.nanos),
{
    chrono::DateTime::from_timestamp(t.secs, t.nanos).unwrap().to_rfc3339_opts(
        chrono::SecondsFormat::Secs,
        false,
    )
}

/// A point in time as RFC 3339 text with whole seconds and a `+00:00` offset.
pub fn format_timestamp(timestamp: &Timestamp) -> (s: String)
    requires
        representable(*timestamp),
    ensures
        s@ == rfc3339_seconds_text(timestamp.secs, timestamp.nanos),
{
    rfc3339_seconds(*timestamp)
}

/// A scheduled event, with accessors that render its fields for storage.
#[derive(Debug)]
pub struct EventDetails {
    event: ScheduledEventData,
}

/// The event's times can be rendered.
pub open spec fn times_representable(e: ScheduledEventData) -> bool {
    &&& representable(e.start_time)
    &&& (e.end_time matches Some(t) ==> representable(t))
}

impl EventDetails {
    /// The view of `event`.
    pub fn new(event: ScheduledEventData) -> (d: EventDetails)
        ensures
            d.event() == event,
    {
        EventDetails { event }
    }

    /// The event this view is of.
    pub closed spec fn event(&self) -> ScheduledEventData {
        self.event
    }

    /// The event's identifier in decimal.
    pub fn event_id(&self) -> (s: String)
        ensures
            s@ == decimal(self.event().id as nat),
    {
        u64_to_decimal(self.event.id)
    }

    /// The event's name.
    pub fn name(&self) -> (s: String)
        ensures
            s@ == self.event().name@,
    {
        self.event.name.clone()
    }

    /// The event's description, if it has one.
    pub fn description(&self) -> (s: Option<String>)
        ensures
            opt_view(s) == opt_view(self.event().description),
    {
        clone_opt(&self.event.description)
    }

    /// The event's location, if it has one.
    pub fn location(&self) -> (s: Option<String>)
        ensures
            opt_view(s) == opt_view(self.event().location),
    {
        clone_opt(&self.event.location)
    }

    /// The start as RFC 3339 text.
    pub fn start_time(&self) -> (s: String)
        requires
            representable(self.event().start_time),
        ensures
            s@ == rfc3339_seconds_text(self.event().start_time.secs, self.event().start_time.nanos),
    {
        format_timestamp(&self.event.start_time)
    }

    /// The end as RFC 3339 text, if the event has an end.
    pub fn end_time(&self) -> (s: Option<String>)
        requires
            times_representable(self.event()),
        ensures
            match self.event().end_time {
                Some(t) => s matches Some(text) && text@ == rfc3339_seconds_text(t.secs, t.nanos),
                None => s is None,
            },
    {
        match &self.event.end_time {
            Some(end_time) => Some(format_timestamp(end_time)),
            None => None,
        }
    }

    /// The length of the event in whole seconds; an event without an end lasts
    /// zero seconds.
    pub fn duration_seconds(&self) -> (d: i64)
        requires
            times_representable(self.event()),
        ensures
            d == match self.event().end_time {
                Some(t) => t.secs - self.event().start_time.secs,
                None => 0,
            },
    {
        match &self.event.end_time {
            Some(end_time) => end_time.secs - self.event.start_time.secs,
            None => 0,
        }
    }
}

/// A bot whose configuration names its token, its state directory and its
/// database, which must be given explicitly.
pub struct CalendarBot {
    pub token: String,
    pub state_directory: String,
    pub database_url: String,
    pub database_filename: String,
}

impl CalendarBot {
    /// The token from `BOT_TOKEN`, required before anything else is set up.
    pub fn token_setting(token: Option<String>) -> (r: Result<String, BotError>)
        ensures
            match token {
                Some(t) => r matches Ok(v) && v@ == t@,
                None => r matches Err(e) && e@ == "Environment variable BOT_TOKEN is not set"@,
            },
    {
        match token {
            Some(token) => Ok(token),
            None => Err(BotError::new(owned("Environment variable BOT_TOKEN is not set"))),
        }
    }

    /// The state directory named by `BOT_STATE_DIRECTORY`, or
    /// `.discordcalendarbot`.
    pub fn state_directory_setting(value: Option<String>) -> (dir: String)
        ensures
            dir@ == match value {
                Some(v) => v@,
                None => ".discordcalendarbot"@,
            },
    {
        match value {
            Some(v) => v,
            None => owned(".discordcalendarbot"),
        }
    }

    /// The bot from its token, its (resolved) state directory and the value of
    /// `DATABASE_URL`, which must be set: a connection string starting with
    /// `sqlite:` names its file after the prefix, any other value is a file
    /// path and gets the prefix added. Fails when the variable could not be read,
    /// with the reason in the message.
    pub fn new(token: String, state_directory: String, database_url: Result<String, String>) -> (r: Result<
        CalendarBot,
        BotError,
    >)
        ensures
            match database_url {
                Ok(url) => r matches Ok(bot) && bot.token@ == token@ && bot.state_directory@
                    == state_directory@ && database_location_spec(
                    EnvSetting::Present(url),
                    state_directory@,
                ) == Ok::<(Seq<char>, Seq<char>), Seq<char>>((bot.database_filename@, bot.database_url@)),
                Err(reason) => r matches Err(e) && e@ == "Environment variable DATABASE_URL is not set: "@
                    + reason@,
            },
    {
        match database_url {
            Ok(url) => {
                match AppState::database_location(EnvSetting::Present(url), state_directory.as_str()) {
                    Ok(loc) => Ok(
                        CalendarBot {
                            token,
                            state_directory,
                            database_url: loc.url,
                            database_filename: loc.filename,
                        },
                    ),
                    Err(e) => Err(e),
                }
            },
            Err(reason) => Err(
                BotError::new(
                    concat2("Environment variable DATABASE_URL is not set: ", reason.as_str()),
                ),
            ),
        }
    }
}

} // verus!
