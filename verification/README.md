# icalbot

A chat bot that publishes the scheduled events of each guild it serves as an
iCalendar feed. Guild members give their server a URL-safe calendar id
(`!icalbot set <id>`, or a random one with `!icalbot reset`); the web server then
serves the feed at `{base URL}/ical/{id}/ical.ics`.

Layout:

- `src/` is the verified library:
  - `text.rs`: trimming, prefix tests, search, decimal and hexadecimal rendering;
  - `time.rs`: points in time and the current time;
  - `entities.rs`: event and guild records, refreshing a record against its stored
    version, discriminators;
  - `state.rs`: configuration (database location, listen address, base URL,
    calendar URLs);
  - `bot.rs`: parsing chat commands, deciding what to do, and the answers;
  - `calendar.rs`: building a guild's feed with the `icalendar` crate;
  - `calendar_bot.rs`: a scheduled event with its fields rendered as text;
  - `web.rs`: the mount point of the routes and the answers to HTTP requests.
- `app/` runs the bot (serenity), the database (sqlx/SQLite) and the web server
  (axum), and hands the library plain values.
- `tests/` exercises the library on concrete values.
