//! The chat bot's decisions: which command a message asks for, and what the
//! bot answers once the work behind the command has been done.
use vstd::prelude::*;

use crate::entities::{is_url_safe_char, url_safe, GuildRecord};
use crate::errors::BotError;
use crate::state::{calendar_url_spec, same_settings, AppState};
use crate::text::{
    all_white_space, append, chars_eq_str, chars_of, concat2, decimal, has_prefix, hex_encode,
    is_white_space, is_white_space_char, lemma_trim_start_skips, lemma_trim_surrounded, lemma_trim_unchanged, owned,
    push_decimal, push_signed_decimal, signed_decimal, starts_with_chars, string_of,
    strip_prefix_chars, trim, trim_chars,
};

verus! {

/// The prefix that addresses the bot.
pub open spec fn command_prefix() -> Seq<char> {
    "!icalbot"@
}

/// A command given to the bot.
pub enum Command {
    /// `refresh`: re-sync the guild's scheduled events.
    Refresh,
    /// `version`: show the bot's version.
    Version,
    /// The bare prefix: show the guild's calendar URL.
    ShowCalendar,
    /// `reset`: pick a new random discriminator.
    Reset,
    /// `set <id>` with a URL-safe id: use it as the discriminator.
    SetId(String),
    /// `set` without an id.
    SetUsage,
    /// `set <id>` with an id that is not URL-safe.
    SetInvalid,
    /// `delete`: remove the discriminator.
    Delete,
    /// `dump_calendar`: show the raw calendar.
    DumpCalendar,
    /// `help`: list the commands.
    Help,
    /// Anything else after the prefix (the trimmed text).
    Unknown(String),
}

/// A command, with its text as character sequences.
pub enum CommandSpec {
    Refresh,
    Version,
    ShowCalendar,
    Reset,
    SetId(Seq<char>),
    SetUsage,
    SetInvalid,
    Delete,
    DumpCalendar,
    Help,
    Unknown(Seq<char>),
}

impl View for Command {
    type V = CommandSpec;

    open spec fn view(&self) -> CommandSpec {
        match self {
            Command::Refresh => CommandSpec::Refresh,
            Command::Version => CommandSpec::Version,
            Command::ShowCalendar => CommandSpec::ShowCalendar,
            Command::Reset => CommandSpec::Reset,
            Command::SetId(id) => CommandSpec::SetId(id@),
            Command::SetUsage => CommandSpec::SetUsage,
            Command::SetInvalid => CommandSpec::SetInvalid,
            Command::Delete => CommandSpec::Delete,
            Command::DumpCalendar => CommandSpec::DumpCalendar,
            Command::Help => CommandSpec::Help,
            Command::Unknown(text) => CommandSpec::Unknown(text@),
        }
    }
}

/// The command that the trimmed text after the prefix names.
pub open spec fn classify(cmd: Seq<char>) -> CommandSpec {
    if cmd == "refresh"@ {
        CommandSpec::Refresh
    } else if cmd == "version"@ {
        CommandSpec::Version
    } else if cmd.len() == 0 {
        CommandSpec::ShowCalendar
    } else if cmd == "reset"@ {
        CommandSpec::Reset
    } else if cmd == "set"@ || has_prefix(cmd, "set "@) {
        let id = trim(cmd.subrange("set"@.len() as int, cmd.len() as int));
        if id.len() == 0 {
            CommandSpec::SetUsage
        } else if !url_safe(id) {
            CommandSpec::SetInvalid
        } else {
            CommandSpec::SetId(id)
        }
    } else if cmd == "delete"@ {
        CommandSpec::Delete
    } else if cmd == "dump_calendar"@ {
        CommandSpec::DumpCalendar
    } else if cmd == "help"@ {
        CommandSpec::Help
    } else {
        CommandSpec::Unknown(cmd)
    }
}

/// The text after the prefix either is empty or starts with white space, so
/// that the prefix stands as a word of its own.
pub open spec fn separated(rest: Seq<char>) -> bool {
    rest.len() == 0 || is_white_space(rest[0])
}

/// The command a message asks for: `None` unless the message starts with the
/// prefix, followed by nothing or by white space; otherwise the command named
/// by the rest, trimmed.
pub open spec fn parse_spec(content: Seq<char>) -> Option<CommandSpec> {
    if has_prefix(content, command_prefix()) {
        let rest = content.subrange(command_prefix().len() as int, content.len() as int);
        if separated(rest) {
            Some(classify(trim(rest)))
        } else {
            None
        }
    } else {
        None
    }
}

impl Command {
    /// The command a message asks for, or `None` when the message does not
    /// start with `!icalbot` followed by nothing or by white space.
    pub fn parse(content: &str) -> (r: Option<Command>)
        ensures
            match r {
                Some(c) => parse_spec(content@) == Some(c@),
                None => parse_spec(content@) is None,
            },
    {
        let cs = chars_of(content);
        let rest = match strip_prefix_chars(cs.as_slice(), "!icalbot") {
            Some(rest) => rest,
            None => {
                return None;
            },
        };
        assert(rest@ =~= content@.subrange(command_prefix().len() as int, content@.len() as int));
        if rest.len() > 0 && !is_white_space_char(rest[0]) {
            return None;
        }
        let cmd = trim_chars(rest.as_slice());
        Some(Command::classify(cmd))
    }

    /// The command named by the trimmed text after the prefix.
    fn classify(cmd: Vec<char>) -> (c: Command)
        ensures
            c@ == classify(cmd@),
    {
        if chars_eq_str(cmd.as_slice(), "refresh") {
            Command::Refresh
        } else if chars_eq_str(cmd.as_slice(), "version") {
            Command::Version
        } else if cmd.len() == 0 {
            Command::ShowCalendar
        } else if chars_eq_str(cmd.as_slice(), "reset") {
            Command::Reset
        } else if chars_eq_str(cmd.as_slice(), "set") || starts_with_chars(cmd.as_slice(), "set ") {
            let after = match strip_prefix_chars(cmd.as_slice(), "set") {
                Some(after) => after,
                None => {
                    proof {
                        reveal_strlit("set");
                        reveal_strlit("set ");
                        if !(cmd@ == "set"@) {
                            assert(cmd@.subrange(0, 3) =~= cmd@.subrange(0, 4).subrange(0, 3));
                        }
                        assert(cmd@.subrange(0, 3) =~= "set"@);
                    }
                    assert(false);
                    Vec::new()
                },
            };
            assert(after@ =~= cmd@.subrange("set"@.len() as int, cmd@.len() as int));
            let id = trim_chars(after.as_slice());
            if id.len() == 0 {
                Command::SetUsage
            } else {
                let id_text = string_of(id.as_slice());
                if !GuildRecord::is_url_safe(id_text.as_str()) {
                    Command::SetInvalid
                } else {
                    Command::SetId(id_text)
                }
            }
        } else if chars_eq_str(cmd.as_slice(), "delete") {
            Command::Delete
        } else if chars_eq_str(cmd.as_slice(), "dump_calendar") {
            Command::DumpCalendar
        } else if chars_eq_str(cmd.as_slice(), "help") {
            Command::Help
        } else {
            Command::Unknown(string_of(cmd.as_slice()))
        }
    }
}


/// What the bot does about a command: answer at once, or first do the work
/// that the answer depends on.
pub enum BotAction {
    /// Answer with this text.
    Reply(String),
    /// Refresh the guild's events, then answer with `refresh_reply`.
    RefreshEvents,
    /// Look the guild up, then answer with `show_calendar_reply`.
    LookupGuild,
    /// Store this discriminator for the guild, then answer with
    /// `discriminator_set_reply`.
    StoreDiscriminator(String),
    /// Remove the guild's discriminator, then answer with `delete_reply`.
    ClearDiscriminator,
    /// Render the guild's calendar, then answer with `dump_calendar_reply`.
    RenderCalendar,
    /// Do not answer; the text is the unknown command, for the log.
    Ignore(String),
}

/// The number of `true` entries.
pub open spec fn count_true(flags: Seq<bool>) -> nat
    decreases flags.len(),
{
    if flags.len() == 0 {
        0
    } else {
        count_true(flags.drop_last()) + if flags.last() {
            1nat
        } else {
            0nat
        }
    }
}

/// The figures a refresh of a guild's events reports.
pub struct RefreshResult {
    pub total_events: i64,
    pub past_events: i64,
    pub future_events: i64,
    pub refreshed_events: u16,
}

/// The guild record a lookup by guild identifier produced.
pub enum GuildLookup {
    /// The guild is stored.
    Found(GuildRecord),
    /// No guild has the identifier.
    Missing,
    /// The lookup failed.
    Failed(BotError),
}

/// The bot: its version and the token it logs in with, and the shared
/// configuration.
pub struct CalendarBot {
    pub version: String,
    pub token: String,
    pub state: AppState,
}

/// The help text listing the commands.
pub open spec fn help_text_spec() -> Seq<char> {
    "**iCalBot Commands**\n`!icalbot` — Show the calendar URL for this server\n`!icalbot help` — Show this help message\n`!icalbot reset` — Generate a new random calendar ID\n`!icalbot set <id>` — Set a custom calendar ID (URL-safe characters only)\n`!icalbot delete` — Remove the calendar ID (disables the calendar)\n`!icalbot refresh` — Re-sync scheduled events from Discord\n`!icalbot version` — Show the bot version\n`!icalbot dump_calendar` — Print the raw iCalendar output"@
}

/// The report of a completed refresh.
pub open spec fn refresh_report_spec(r: RefreshResult) -> Seq<char> {
    "**Refresh complete**\nTotal events: "@ + signed_decimal(r.total_events as int)
        + "\nPast events: "@ + signed_decimal(r.past_events as int) + "\nFuture events: "@
        + signed_decimal(r.future_events as int) + "\nRefreshed events: "@ + decimal(
        r.refreshed_events as nat,
    )
}

impl CalendarBot {
    /// The bot with its version, the value of `BOT_TOKEN` (absent when the
    /// variable is unset or unreadable), and the shared configuration, stored
    /// as given.
    ///
    /// Fails exactly when there is no token.
    pub fn new(state: AppState, version: String, token: Option<String>) -> (r: Result<CalendarBot, BotError>)
        ensures
            match token {
                Some(t) => r matches Ok(bot) && bot.token@ == t@ && bot.version@ == version@
                    && same_settings(bot.state, state),
                None => r matches Err(e) && e@ == "Environment variable BOT_TOKEN is not set"@,
            },
    {
        match token {
            Some(token) => Ok(CalendarBot { version, token, state }),
            None => Err(BotError::new(owned("Environment variable BOT_TOKEN is not set"))),
        }
    }

    /// The action for a command. `reset` picks a fresh random discriminator
    /// here; `set` stores the id it was given.
    pub fn plan(&self, command: Command) -> (action: BotAction)
        ensures
            match command {
                Command::Refresh => action is RefreshEvents,
                Command::Version => action matches BotAction::Reply(t) && t@ == self.version@,
                Command::ShowCalendar => action is LookupGuild,
                Command::Reset => action matches BotAction::StoreDiscriminator(d) && d@.len() == 32
                    && url_safe(d@) && exists|bytes: Seq<u8>|
                    bytes.len() == 16 && d@ == hex_encode(bytes),
                Command::SetId(id) => action matches BotAction::StoreDiscriminator(d) && d@ == id@,
                Command::SetUsage => action matches BotAction::Reply(t) && t@
                    == "Usage: `!icalbot set <id>` — provide an ID to use."@,
                Command::SetInvalid => action matches BotAction::Reply(t) && t@
                    == "Invalid ID. The ID must contain only URL-safe characters (letters, digits, `-`, `.`, `_`, `~`)."@,
                Command::Delete => action is ClearDiscriminator,
                Command::DumpCalendar => action is RenderCalendar,
                Command::Help => action matches BotAction::Reply(t) && t@ == help_text_spec(),
                Command::Unknown(text) => action matches BotAction::Ignore(t) && t@ == text@,
            },
    {
        match command {
            Command::Refresh => BotAction::RefreshEvents,
            Command::Version => BotAction::Reply(self.version_reply()),
            Command::ShowCalendar => BotAction::LookupGuild,
            Command::Reset => BotAction::StoreDiscriminator(GuildRecord::generate_discriminator()),
            Command::SetId(id) => BotAction::StoreDiscriminator(id),
            Command::SetUsage => BotAction::Reply(CalendarBot::set_usage_reply()),
            Command::SetInvalid => BotAction::Reply(CalendarBot::set_invalid_reply()),
            Command::Delete => BotAction::ClearDiscriminator,
            Command::DumpCalendar => BotAction::RenderCalendar,
            Command::Help => BotAction::Reply(CalendarBot::help_reply()),
            Command::Unknown(text) => BotAction::Ignore(text),
        }
    }

    /// How many of the refreshes reported a change.
    pub fn count_refreshed(changed: &[bool]) -> (n: u16)
        requires
            count_true(changed@) <= u16::MAX,
        ensures
            n == count_true(changed@),
    {
        let mut n: u16 = 0;
        let mut i: usize = 0;
        while i < changed.len()
            invariant
                i <= changed@.len(),
                count_true(changed@) <= u16::MAX,
                n == count_true(changed@.subrange(0, i as int)),
            decreases changed@.len() - i,
        {
            proof {
                assert(changed@.subrange(0, i + 1).drop_last() =~= changed@.subrange(0, i as int));
                lemma_count_true_prefix(changed@, i + 1);
            }
            if changed[i] {
                n = n + 1;
            }
            i = i + 1;
        }
        assert(changed@.subrange(0, i as int) =~= changed@);
        n
    }

    /// The answer to `refresh`: the figures, or a failure notice when the
    /// guild's events could not be read.
    pub fn refresh_reply(result: &Option<RefreshResult>) -> (reply: String)
        ensures
            reply@ == match result {
                Some(r) => refresh_report_spec(*r),
                None => "Failed to refresh events."@,
            },
    {
        match result {
            Some(r) => {
                let mut s = owned("**Refresh complete**\nTotal events: ");
                push_signed_decimal(&mut s, r.total_events);
                append(&mut s, "\nPast events: ");
                push_signed_decimal(&mut s, r.past_events);
                append(&mut s, "\nFuture events: ");
                push_signed_decimal(&mut s, r.future_events);
                append(&mut s, "\nRefreshed events: ");
                push_decimal(&mut s, r.refreshed_events as u64);
                s
            },
            None => owned("Failed to refresh events."),
        }
    }

    /// The answer to `version`: the version.
    pub fn version_reply(&self) -> (reply: String)
        ensures
            reply@ == self.version@,
    {
        self.version.clone()
    }

    /// The answer to the bare prefix: the calendar URL when the guild has a
    /// discriminator, otherwise what is missing or what went wrong.
    pub fn show_calendar_reply(&self, lookup: &GuildLookup) -> (reply: String)
        ensures
            reply@ == match lookup {
                GuildLookup::Found(g) => match g.discriminator {
                    Some(d) => "Calendar URL: "@ + calendar_url_spec(self.state.base_url@, d@),
                    None => "No calendar configured. Use `!icalbot reset` or `!icalbot set <id>` to create one."@,
                },
                GuildLookup::Missing => "Guild not found in the database."@,
                GuildLookup::Failed(e) => "Error looking up guild: "@ + e@,
            },
    {
        match lookup {
            GuildLookup::Found(g) => match &g.discriminator {
                Some(d) => {
                    let url = self.state.calendar_url(d.as_str());
                    concat2("Calendar URL: ", url.as_str())
                },
                None => owned(
                    "No calendar configured. Use `!icalbot reset` or `!icalbot set <id>` to create one.",
                ),
            },
            GuildLookup::Missing => owned("Guild not found in the database."),
            GuildLookup::Failed(e) => concat2("Error looking up guild: ", e.message()),
        }
    }

    /// The answer once a discriminator was stored (by `reset` or `set`): the
    /// discriminator and the calendar URL, or why storing it failed.
    pub fn discriminator_set_reply(&self, discriminator: &str, failure: &Option<BotError>) -> (reply: String)
        ensures
            reply@ == match failure {
                None => "Guild discriminator set to `"@ + discriminator@ + "`\nCalendar URL: "@
                    + calendar_url_spec(self.state.base_url@, discriminator@),
                Some(e) => "Failed to set discriminator: "@ + e@,
            },
    {
        match failure {
            None => {
                let url = self.state.calendar_url(discriminator);
                let mut s = owned("Guild discriminator set to `");
                append(&mut s, discriminator);
                append(&mut s, "`\nCalendar URL: ");
                append(&mut s, url.as_str());
                s
            },
            Some(e) => concat2("Failed to set discriminator: ", e.message()),
        }
    }

    /// The answer to `set` without an id.
    pub fn set_usage_reply() -> (reply: String)
        ensures
            reply@ == "Usage: `!icalbot set <id>` — provide an ID to use."@,
    {
        owned("Usage: `!icalbot set <id>` — provide an ID to use.")
    }

    /// The answer to `set` with an id that is not URL-safe.
    pub fn set_invalid_reply() -> (reply: String)
        ensures
            reply@
                == "Invalid ID. The ID must contain only URL-safe characters (letters, digits, `-`, `.`, `_`, `~`)."@,
    {
        owned(
            "Invalid ID. The ID must contain only URL-safe characters (letters, digits, `-`, `.`, `_`, `~`).",
        )
    }

    /// The answer to `delete`: confirmation, or why removing failed.
    pub fn delete_reply(failure: &Option<BotError>) -> (reply: String)
        ensures
            reply@ == match failure {
                None => "Calendar discriminator removed."@,
                Some(e) => "Failed to remove discriminator: "@ + e@,
            },
    {
        match failure {
            None => owned("Calendar discriminator removed."),
            Some(e) => concat2("Failed to remove discriminator: ", e.message()),
        }
    }

    /// The answer to `dump_calendar`: the rendered calendar in a plain-text
    /// block, or the error in one.
    pub fn dump_calendar_reply(rendered: &Result<String, BotError>) -> (reply: String)
        ensures
            reply@ == match rendered {
                Ok(text) => "```plaintext\n"@ + text@ + "\n```"@,
                Err(e) => "I had an error rendering your calendar...\n\n```plaintext\n"@ + e@
                    + "\n```"@,
            },
    {
        match rendered {
            Ok(text) => {
                let mut s = owned("```plaintext\n");
                append(&mut s, text.as_str());
                append(&mut s, "\n```");
                s
            },
            Err(e) => {
                let mut s = owned("I had an error rendering your calendar...\n\n```plaintext\n");
                append(&mut s, e.message());
                append(&mut s, "\n```");
                s
            },
        }
    }

    /// The answer to `help`: the list of commands.
    pub fn help_reply() -> (reply: String)
        ensures
            reply@ == help_text_spec(),
    {
        owned(
            "**iCalBot Commands**\n`!icalbot` — Show the calendar URL for this server\n`!icalbot help` — Show this help message\n`!icalbot reset` — Generate a new random calendar ID\n`!icalbot set <id>` — Set a custom calendar ID (URL-safe characters only)\n`!icalbot delete` — Remove the calendar ID (disables the calendar)\n`!icalbot refresh` — Re-sync scheduled events from Discord\n`!icalbot version` — Show the bot version\n`!icalbot dump_calendar` — Print the raw iCalendar output",
        )
    }
}

/// Counting a longer prefix adds the next entry.
proof fn lemma_count_true_prefix(flags: Seq<bool>, n: int)
    requires
        0 < n <= flags.len(),
    ensures
        count_true(flags.subrange(0, n)) == count_true(flags.subrange(0, n - 1)) + if flags[n - 1] {
            1nat
        } else {
            0nat
        },
        count_true(flags.subrange(0, n)) <= count_true(flags),
    decreases flags.len() - n,
{
    assert(flags.subrange(0, n).drop_last() =~= flags.subrange(0, n - 1));
    if n < flags.len() {
        lemma_count_true_prefix(flags, n + 1);
    } else {
        assert(flags.subrange(0, n) =~= flags);
    }
}

/// A `set` command is accepted only with a non-empty, URL-safe id.
pub proof fn lemma_set_id_is_url_safe(content: Seq<char>, id: Seq<char>)
    requires
        parse_spec(content) == Some(CommandSpec::SetId(id)),
    ensures
        url_safe(id),
        id.len() > 0,
{
}

/// No URL-safe character is white space.
proof fn lemma_url_safe_not_white(c: char)
    requires
        is_url_safe_char(c),
    ensures
        !is_white_space(c),
{
}

/// Any URL-safe id, and so any discriminator that `reset` generates, is accepted
/// back verbatim by `!icalbot set <id>`.
pub proof fn lemma_set_accepts_url_safe_id(id: Seq<char>)
    requires
        url_safe(id),
    ensures
        parse_spec("!icalbot set "@ + id) == Some(CommandSpec::SetId(id)),
{
    reveal_strlit("!icalbot set ");
    reveal_strlit("!icalbot");
    reveal_strlit("set ");
    reveal_strlit("set");
    reveal_strlit("refresh");
    reveal_strlit("version");
    reveal_strlit("reset");
    let content = "!icalbot set "@ + id;
    assert(content.subrange(0, 8) =~= command_prefix());
    let rest = content.subrange(8, content.len() as int);
    let cmd = "set "@ + id;
    assert(rest =~= seq![' '] + cmd);
    lemma_trim_start_skips(' ', cmd);
    lemma_url_safe_not_white(id[0]);
    lemma_url_safe_not_white(id.last());
    assert(cmd.last() == id.last());
    lemma_trim_unchanged(cmd);
    assert(trim(rest) == cmd);
    assert(cmd[0] == 's');
    assert(cmd != "refresh"@ && cmd != "version"@ && cmd != "reset"@) by {
        assert("refresh"@[0] == 'r' && "version"@[0] == 'v' && "reset"@[0] == 'r');
    }
    assert(cmd.subrange(0, 4) =~= "set "@);
    let after = cmd.subrange(3, cmd.len() as int);
    assert(after =~= seq![' '] + id);
    lemma_trim_start_skips(' ', id);
    lemma_url_safe_not_white(id[0]);
    lemma_trim_unchanged(id);
}

/// However much white space separates the prefix from a command, and however
/// much follows it, the message names the same command; the prefix run
/// together with the command names none.
pub proof fn lemma_parse_ignores_surrounding_white_space(
    w1: Seq<char>,
    cmd: Seq<char>,
    w2: Seq<char>,
)
    requires
        w1.len() > 0,
        all_white_space(w1),
        all_white_space(w2),
        cmd.len() > 0,
        !is_white_space(cmd[0]),
        !is_white_space(cmd.last()),
    ensures
        parse_spec(command_prefix() + w1 + cmd + w2) == Some(classify(cmd)),
        parse_spec(command_prefix() + cmd) is None,
{
    let p = command_prefix();
    let m = p + w1 + cmd + w2;
    assert(m.subrange(0, p.len() as int) =~= p);
    assert(m.subrange(p.len() as int, m.len() as int) =~= w1 + cmd + w2);
    assert((w1 + cmd + w2)[0] == w1[0]);
    lemma_trim_surrounded(w1, cmd, w2);
    let n = p + cmd;
    assert(n.subrange(p.len() as int, n.len() as int) =~= cmd);
}

} // verus!
