//! A guild's iCalendar feed, built with the `icalendar` crate.
use vstd::prelude::*;

use icalendar::{Calendar, Component, Event, EventLike, EventStatus};

use crate::entities::{EventDetails, EventRecord};
use crate::errors::BotError;
use crate::text::{decimal, has_prefix, has_suffix, occurs_at, owned};
use crate::time::{representable, Timestamp};

verus! {

#[verifier::external_type_specification]
#[verifier::external_body]
pub struct ExCalendar(icalendar::Calendar);

#[verifier::external_type_specification]
#[verifier::external_body]
pub struct ExEvent(icalendar::Event);

/// A calendar dereferences to its components, so their type must be known too.
#[verifier::external_type_specification]
#[verifier::external_body]
pub struct ExCalendarComponent(icalendar::CalendarComponent);

/// The top-level properties of a calendar, in order, each as its name, its
/// parameters (name and value, in name order) and its value.
pub uninterp spec fn calendar_properties(cal: Calendar) -> Seq<
    (Seq<char>, Seq<(Seq<char>, Seq<char>)>, Seq<char>),
>;

/// The components of a calendar, in order, each as its kind (such as `VEVENT`)
/// and the map from name to (parameters, value) of its single-valued
/// properties. Multi-valued properties and sub-components are not part of this
/// view.
pub uninterp spec fn calendar_components(cal: Calendar) -> Seq<
    (Seq<char>, Map<Seq<char>, (Seq<(Seq<char>, Seq<char>)>, Seq<char>)>),
>;

/// The single-valued properties of an event, as a map from name to
/// (parameters, value). Multi-valued properties and sub-components are not
/// part of this view.
pub uninterp spec fn event_properties(ev: Event) -> Map<
    Seq<char>,
    (Seq<(Seq<char>, Seq<char>)>, Seq<char>),
>;

/// The content line icalendar writes for a property with this name, these
/// parameters and this value: the name, each parameter, `:` and the value
/// (escaped as the property's value type asks), folded at 75 octets, and ended
/// by CRLF.
pub uninterp spec fn content_line(
    name: Seq<char>,
    params: Seq<(Seq<char>, Seq<char>)>,
    value: Seq<char>,
) -> Seq<char>;

/// The iCalendar UTC date-time text of a point in time, as chrono formats it with
/// `%Y%m%dT%H%M%SZ`.
pub uninterp spec fn utc_date_time_text(secs: i64, nanos: u32) -> Seq<char>;

/// No parameters.
pub open spec fn no_params() -> Seq<(Seq<char>, Seq<char>)> {
    Seq::empty()
}

/// A property without parameters.
pub open spec fn plain(name: Seq<char>, value: Seq<char>) -> (
    Seq<char>,
    Seq<(Seq<char>, Seq<char>)>,
    Seq<char>,
) {
    (name, no_params(), value)
}

/// A calendar without components.
pub open spec fn no_components() -> Seq<
    (Seq<char>, Map<Seq<char>, (Seq<(Seq<char>, Seq<char>)>, Seq<char>)>),
> {
    Seq::empty()
}

/// An event without properties.
pub open spec fn no_properties() -> Map<Seq<char>, (Seq<(Seq<char>, Seq<char>)>, Seq<char>)> {
    Map::empty()
}

/// `icalendar::Calendar::new`: a calendar with the properties `VERSION:2.0`,
/// `PRODID:ICALENDAR-RS` and `CALSCALE:GREGORIAN`, and no components.
#[verifier::external_body]
fn calendar_new() -> (cal: Calendar)
    ensures
        calendar_properties(cal) == seq![
            plain("VERSION"@, "2.0"@),
            plain("PRODID"@, "ICALENDAR-RS"@),
            plain("CALSCALE"@, "GREGORIAN"@),
        ],
        calendar_components(cal) == no_components(),
{
    Calendar::new()
}

/// `Calendar::name`: appends `NAME` and `X-WR-CALNAME`, both set to
/// `name`.
#[verifier::external_body]
fn calendar_set_name(cal: &mut Calendar, name: &str)
    ensures
        calendar_properties(*final(cal)) == calendar_properties(*old(cal)).push(plain("NAME"@, name@)).push(
            plain("X-WR-CALNAME"@, name@),
        ),
        calendar_components(*final(cal)) == calendar_components(*old(cal)),
{
    cal.name(name);
}

/// `Calendar::ttl` with `chrono::Duration::days(days)`: appends
/// `REFRESH-INTERVAL` (with the parameter `VALUE=DURATION`) and
/// `X-PUBLISHED-TTL`, both set to the duration as chrono displays it,
/// `PT{seconds}S`.
#[verifier::external_body]
fn calendar_set_ttl_days(cal: &mut Calendar, days: i64)
    requires
        1 <= days <= 36500,
    ensures
        calendar_properties(*final(cal)) == calendar_properties(*old(cal)).push(
            (
                "REFRESH-INTERVAL"@,
                seq![("VALUE"@, "DURATION"@)],
                "PT"@ + decimal((days * 86400) as nat) + "S"@,
            ),
        ).push(plain("X-PUBLISHED-TTL"@, "PT"@ + decimal((days * 86400) as nat) + "S"@)),
        calendar_components(*final(cal)) == calendar_components(*old(cal)),
{
    cal.ttl(&chrono::Duration::days(days));
}

/// `Calendar::timezone`: appends `X-WR-TIMEZONE` set to `tz`.
#[verifier::external_body]
fn calendar_set_timezone(cal: &mut Calendar, tz: &str)
    ensures
        calendar_properties(*final(cal)) == calendar_properties(*old(cal)).push(plain("X-WR-TIMEZONE"@, tz@)),
        calendar_components(*final(cal)) == calendar_components(*old(cal)),
{
    cal.timezone(tz);
}

/// `Calendar::push` with an event: appends it as a `VEVENT` component.
#[verifier::external_body]
fn calendar_push_event(cal: &mut Calendar, ev: Event)
    ensures
        calendar_properties(*final(cal)) == calendar_properties(*old(cal)),
        calendar_components(*final(cal)) == calendar_components(*old(cal)).push(("VEVENT"@, event_properties(ev))),
{
    cal.push(ev);
}

/// `Event::new`: an event without properties.
#[verifier::external_body]
fn event_new() -> (ev: Event)
    ensures
        event_properties(ev) == no_properties(),
{
    Event::new()
}

/// `Event::status` with `EventStatus::Confirmed`: sets `STATUS` to
/// `CONFIRMED`.
#[verifier::external_body]
fn event_set_confirmed(ev: &mut Event)
    ensures
        event_properties(*final(ev)) == event_properties(*old(ev)).insert("STATUS"@, (no_params(), "CONFIRMED"@)),
{
    ev.status(EventStatus::Confirmed);
}

/// `icalendar::Component::add_property`: sets the property `key` to `value`.
#[verifier::external_body]
fn event_add_property(ev: &mut Event, key: &str, value: &str)
    ensures
        event_properties(*final(ev)) == event_properties(*old(ev)).insert(key@, (no_params(), value@)),
{
    ev.add_property(key, value);
}

/// `icalendar::Component::summary`: sets `SUMMARY`.
#[verifier::external_body]
fn event_set_summary(ev: &mut Event, text: &str)
    ensures
        event_properties(*final(ev)) == event_properties(*old(ev)).insert("SUMMARY"@, (no_params(), text@)),
{
    ev.summary(text);
}

/// `icalendar::Component::description`: sets `DESCRIPTION`.
#[verifier::external_body]
fn event_set_description(ev: &mut Event, text: &str)
    ensures
        event_properties(*final(ev)) == event_properties(*old(ev)).insert("DESCRIPTION"@, (no_params(), text@)),
{
    ev.description(text);
}

/// `EventLike::location`: sets `LOCATION`.
#[verifier::external_body]
fn event_set_location(ev: &mut Event, text: &str)
    ensures
        event_properties(*final(ev)) == event_properties(*old(ev)).insert("LOCATION"@, (no_params(), text@)),
{
    ev.location(text);
}

/// `EventLike::starts` with a UTC date-time: sets `DTSTART`.
#[verifier::external_body]
fn event_set_starts(ev: &mut Event, t: Timestamp)
    requires
        representable(t),
    ensures
        event_properties(*final(ev)) == event_properties(*old(ev)).insert(
            "DTSTART"@,
            (no_params(), utc_date_time_text(t.secs, t.nanos)),
        ),
{
    ev.starts(chrono::DateTime::from_timestamp(t.secs, t.nanos).unwrap());
}

/// `EventLike::ends` with a UTC date-time: sets `DTEND`.
#[verifier::external_body]
fn event_set_ends(ev: &mut Event, t: Timestamp)
    requires
        representable(t),
    ensures
        event_properties(*final(ev)) == event_properties(*old(ev)).insert(
            "DTEND"@,
            (no_params(), utc_date_time_text(t.secs, t.nanos)),
        ),
{
    ev.ends(chrono::DateTime::from_timestamp(t.secs, t.nanos).unwrap());
}

/// `icalendar::Component::created`: sets `CREATED`.
#[verifier::external_body]
fn event_set_created(ev: &mut Event, t: Timestamp)
    requires
        representable(t),
    ensures
        event_properties(*final(ev)) == event_properties(*old(ev)).insert(
            "CREATED"@,
            (no_params(), utc_date_time_text(t.secs, t.nanos)),
        ),
{
    ev.created(chrono::DateTime::from_timestamp(t.secs, t.nanos).unwrap());
}

/// `icalendar::Component::last_modified`: sets `LAST-MODIFIED`.
#[verifier::external_body]
fn event_set_last_modified(ev: &mut Event, t: Timestamp)
    requires
        representable(t),
    ensures
        event_properties(*final(ev)) == event_properties(*old(ev)).insert(
            "LAST-MODIFIED"@,
            (no_params(), utc_date_time_text(t.secs, t.nanos)),
        ),
{
    ev.last_modified(chrono::DateTime::from_timestamp(t.secs, t.nanos).unwrap());
}

/// The content lines of these properties, in order.
pub open spec fn property_lines(
    props: Seq<(Seq<char>, Seq<(Seq<char>, Seq<char>)>, Seq<char>)>,
) -> Seq<char>
    decreases props.len(),
{
    if props.len() == 0 {
        Seq::empty()
    } else {
        property_lines(props.drop_last()) + content_line(
            props.last().0,
            props.last().1,
            props.last().2,
        )
    }
}

/// A content line is ended by CRLF and holds at least the name and `:`.
pub open spec fn line_shape(
    name: Seq<char>,
    params: Seq<(Seq<char>, Seq<char>)>,
    value: Seq<char>,
) -> bool {
    &&& has_suffix(content_line(name, params, value), "\r\n"@)
    &&& content_line(name, params, value).len() >= name.len() + 3
}

/// `t` occurs somewhere in `s`.
pub open spec fn contains_text(s: Seq<char>, t: Seq<char>) -> bool {
    exists|i: int| occurs_at(s, t, i)
}

/// `block` is the text of a component of this kind with these properties: a
/// `BEGIN:{kind}` line first, an `END:{kind}` line last, and the content line
/// of each property in between.
pub open spec fn component_block(
    block: Seq<char>,
    kind: Seq<char>,
    props: Map<Seq<char>, (Seq<(Seq<char>, Seq<char>)>, Seq<char>)>,
) -> bool {
    &&& has_prefix(block, "BEGIN:"@ + kind + "\r\n"@)
    &&& has_suffix(block, "END:"@ + kind + "\r\n"@)
    &&& block.len() >= ("BEGIN:"@ + kind + "\r\n"@).len() + ("END:"@ + kind + "\r\n"@).len()
    &&& forall|name: Seq<char>| #[trigger]
        props.dom().contains(name) ==> {
            &&& line_shape(name, props[name].0, props[name].1)
            &&& contains_text(block, content_line(name, props[name].0, props[name].1))
        }
}

/// `text` is iCalendar text of a calendar with these properties and components:
/// `BEGIN:VCALENDAR`, the content lines of the properties in order, one block
/// per component in order, and `END:VCALENDAR`.
pub open spec fn calendar_rendering(
    text: Seq<char>,
    props: Seq<(Seq<char>, Seq<(Seq<char>, Seq<char>)>, Seq<char>)>,
    comps: Seq<(Seq<char>, Map<Seq<char>, (Seq<(Seq<char>, Seq<char>)>, Seq<char>)>)>,
) -> bool {
    &&& forall|j: int| 0 <= j < props.len() ==> line_shape(#[trigger] props[j].0, props[j].1, props[j].2)
    &&& exists|blocks: Seq<Seq<char>>|
        {
            &&& blocks.len() == comps.len()
            &&& forall|i: int|
                0 <= i < blocks.len() ==> component_block(#[trigger] blocks[i], comps[i].0, comps[i].1)
            &&& text == "BEGIN:VCALENDAR\r\n"@ + property_lines(props) + blocks.flatten()
                + "END:VCALENDAR\r\n"@
        }
}

/// Text found in `s` is still found once text is put before and after `s`.
proof fn lemma_contains_in_context(p: Seq<char>, s: Seq<char>, q: Seq<char>, t: Seq<char>)
    requires
        contains_text(s, t),
    ensures
        contains_text(p + s + q, t),
{
    let k = choose|k: int| occurs_at(s, t, k);
    let u = p + s + q;
    assert(u.subrange(k + p.len(), k + p.len() + t.len()) =~= s.subrange(k, k + t.len()));
    assert(occurs_at(u, t, k + p.len()));
}

/// Text found in one of the blocks is found in the blocks joined together.
proof fn lemma_contains_in_flatten(blocks: Seq<Seq<char>>, i: int, t: Seq<char>)
    requires
        0 <= i < blocks.len(),
        contains_text(blocks[i], t),
    ensures
        contains_text(blocks.flatten(), t),
    decreases blocks.len(),
{
    let rest = blocks.drop_first().flatten();
    let e = Seq::<char>::empty();
    if i == 0 {
        lemma_contains_in_context(e, blocks[0], rest, t);
        assert(e + blocks[0] + rest =~= blocks.flatten());
    } else {
        assert(blocks.drop_first()[i - 1] == blocks[i]);
        lemma_contains_in_flatten(blocks.drop_first(), i - 1, t);
        lemma_contains_in_context(blocks[0], rest, e, t);
        assert(blocks[0] + rest + e =~= blocks.flatten());
    }
}

/// In the text of a calendar, the content line of every property of every
/// component occurs.
pub proof fn lemma_component_line_in_text(
    text: Seq<char>,
    props: Seq<(Seq<char>, Seq<(Seq<char>, Seq<char>)>, Seq<char>)>,
    comps: Seq<(Seq<char>, Map<Seq<char>, (Seq<(Seq<char>, Seq<char>)>, Seq<char>)>)>,
    i: int,
    name: Seq<char>,
)
    requires
        calendar_rendering(text, props, comps),
        0 <= i < comps.len(),
        comps[i].1.contains_key(name),
    ensures
        contains_text(text, content_line(name, comps[i].1[name].0, comps[i].1[name].1)),
{
    let blocks = choose|blocks: Seq<Seq<char>>|
        {
            &&& blocks.len() == comps.len()
            &&& forall|j: int|
                0 <= j < blocks.len() ==> component_block(#[trigger] blocks[j], comps[j].0, comps[j].1)
            &&& text == "BEGIN:VCALENDAR\r\n"@ + property_lines(props) + blocks.flatten()
                + "END:VCALENDAR\r\n"@
        };
    let line = content_line(name, comps[i].1[name].0, comps[i].1[name].1);
    assert(component_block(blocks[i], comps[i].0, comps[i].1));
    lemma_contains_in_flatten(blocks, i, line);
    lemma_contains_in_context(
        "BEGIN:VCALENDAR\r\n"@ + property_lines(props),
        blocks.flatten(),
        "END:VCALENDAR\r\n"@,
        line,
    );
}

/// The iCalendar text of a calendar, as `Display` for `icalendar::Calendar`
/// writes it: `BEGIN:VCALENDAR`, the content line of each calendar property in
/// order, each component in order, and `END:VCALENDAR`. A component is written
/// as `BEGIN:{kind}`, its property lines, its multi-valued properties and
/// sub-components, and `END:{kind}`.
///
/// What a component block holds besides its properties' content lines, and in
/// which order, is left unsaid: a `DTSTAMP` of the time of writing and a random
/// `UID` are added where the component has none.
#[verifier::external_body]
fn calendar_text(cal: &Calendar) -> (text: String)
    ensures
        calendar_rendering(text@, calendar_properties(*cal), calendar_components(*cal)),
        forall|j: int|
            0 <= j < calendar_properties(*cal).len() ==> contains_text(
                text@,
                content_line(
                    #[trigger] calendar_properties(*cal)[j].0,
                    calendar_properties(*cal)[j].1,
                    calendar_properties(*cal)[j].2,
                ),
            ),
{
    cal.to_string()
}

/// The text of a point in time in an event property.
pub open spec fn stamp(t: Timestamp) -> Seq<char> {
    utc_date_time_text(t.secs, t.nanos)
}

/// The properties a stored event gets in the feed: confirmed status, opaque
/// transparency (the event blocks time), its title
/// as summary, its start and end, creation and update times, and its
/// description and location when it has them.
/// None of them has parameters.
pub open spec fn event_entry(e: EventRecord) -> Map<Seq<char>, (Seq<(Seq<char>, Seq<char>)>, Seq<char>)> {
    let base = Map::<Seq<char>, (Seq<(Seq<char>, Seq<char>)>, Seq<char>)>::empty().insert(
        "STATUS"@,
        (no_params(), "CONFIRMED"@),
    ).insert("TRANSP"@, (no_params(), "OPAQUE"@)).insert("SUMMARY"@, (no_params(), e.title)).insert(
        "DTSTART"@,
        (no_params(), stamp(e.start_time)),
    ).insert("DTEND"@, (no_params(), stamp(e.end_time))).insert(
        "CREATED"@,
        (no_params(), stamp(e.created_at)),
    ).insert("LAST-MODIFIED"@, (no_params(), stamp(e.updated_at)));
    let with_description = match e.description {
        Some(d) => base.insert("DESCRIPTION"@, (no_params(), d)),
        None => base,
    };
    match e.location {
        Some(l) => with_description.insert("LOCATION"@, (no_params(), l)),
        None => with_description,
    }
}

/// The feed component of a stored event: a `VEVENT` with the event's entry.
pub open spec fn feed_event(e: EventDetails) -> (
    Seq<char>,
    Map<Seq<char>, (Seq<(Seq<char>, Seq<char>)>, Seq<char>)>,
) {
    ("VEVENT"@, event_entry(e@))
}

/// The top-level properties of a guild's feed: the crate's defaults, the
/// guild's name, a one-day refresh interval (given as a duration) and the
/// time zone.
pub open spec fn feed_properties(name: Seq<char>) -> Seq<
    (Seq<char>, Seq<(Seq<char>, Seq<char>)>, Seq<char>),
> {
    seq![
        plain("VERSION"@, "2.0"@),
        plain("PRODID"@, "ICALENDAR-RS"@),
        plain("CALSCALE"@, "GREGORIAN"@),
        plain("NAME"@, name),
        plain("X-WR-CALNAME"@, name),
        ("REFRESH-INTERVAL"@, seq![("VALUE"@, "DURATION"@)], "PT86400S"@),
        plain("X-PUBLISHED-TTL"@, "PT86400S"@),
        plain("X-WR-TIMEZONE"@, "America/Edmonton"@),
    ]
}

/// `m` sets the property `name` to `value`, without parameters.
pub open spec fn sets(
    m: Map<Seq<char>, (Seq<(Seq<char>, Seq<char>)>, Seq<char>)>,
    name: Seq<char>,
    value: Seq<char>,
) -> bool {
    m.contains_key(name) && m[name] == (no_params(), value)
}

/// The properties of the feed entry of `e`, field by field: `STATUS` is
/// `CONFIRMED`, `TRANSP` is `OPAQUE`, `SUMMARY` is the title, `DTSTART`,
/// `DTEND`, `CREATED` and `LAST-MODIFIED` are the start, end, creation and
/// update times; `DESCRIPTION` is the description and `LOCATION` the location,
/// each exactly when the event has one, independently of the other; and there
/// is no other property.
pub open spec fn entry_fields(
    m: Map<Seq<char>, (Seq<(Seq<char>, Seq<char>)>, Seq<char>)>,
    e: EventRecord,
) -> bool {
    &&& sets(m, "STATUS"@, "CONFIRMED"@)
    &&& sets(m, "TRANSP"@, "OPAQUE"@)
    &&& sets(m, "SUMMARY"@, e.title)
    &&& sets(m, "DTSTART"@, utc_date_time_text(e.start_time.secs, e.start_time.nanos))
    &&& sets(m, "DTEND"@, utc_date_time_text(e.end_time.secs, e.end_time.nanos))
    &&& sets(m, "CREATED"@, utc_date_time_text(e.created_at.secs, e.created_at.nanos))
    &&& sets(m, "LAST-MODIFIED"@, utc_date_time_text(e.updated_at.secs, e.updated_at.nanos))
    &&& (e.description matches Some(d) ==> sets(m, "DESCRIPTION"@, d))
    &&& (e.description is None ==> !m.contains_key("DESCRIPTION"@))
    &&& (e.location matches Some(l) ==> sets(m, "LOCATION"@, l))
    &&& (e.location is None ==> !m.contains_key("LOCATION"@))
    &&& forall|k: Seq<char>|
        #[trigger] m.contains_key(k) ==> k == "STATUS"@ || k == "TRANSP"@ || k == "SUMMARY"@ || k
            == "DTSTART"@ || k == "DTEND"@ || k == "CREATED"@ || k == "LAST-MODIFIED"@ || k
            == "DESCRIPTION"@ || k == "LOCATION"@
}

/// The feed entry of every event holds exactly its fields: its title, times,
/// and its description and location whenever it has them, whatever the other
/// is, next to the fixed status and transparency.
pub proof fn lemma_event_entry_fields(e: EventRecord)
    ensures
        entry_fields(event_entry(e), e),
{
    reveal_strlit("STATUS");
    reveal_strlit("TRANSP");
    reveal_strlit("SUMMARY");
    reveal_strlit("DTSTART");
    reveal_strlit("DTEND");
    reveal_strlit("CREATED");
    reveal_strlit("LAST-MODIFIED");
    reveal_strlit("DESCRIPTION");
    reveal_strlit("LOCATION");
    // The names differ in length, or else in their first character.
    assert("STATUS"@.len() == 6 && "TRANSP"@.len() == 6 && "SUMMARY"@.len() == 7);
    assert("DTSTART"@.len() == 7 && "DTEND"@.len() == 5 && "CREATED"@.len() == 7);
    assert("LAST-MODIFIED"@.len() == 13 && "DESCRIPTION"@.len() == 11 && "LOCATION"@.len() == 8);
    assert("STATUS"@[0] != "TRANSP"@[0]);
    assert("SUMMARY"@[0] != "DTSTART"@[0] && "SUMMARY"@[0] != "CREATED"@[0] && "DTSTART"@[0]
        != "CREATED"@[0]);
}

/// All times of the event can be written as iCalendar date-times.
pub open spec fn event_times_representable(e: EventRecord) -> bool {
    &&& representable(e.start_time)
    &&& representable(e.end_time)
    &&& representable(e.created_at)
    &&& representable(e.updated_at)
}

/// The feed entry for one stored event.
fn make_event(e: &EventDetails) -> (ev: Event)
    requires
        event_times_representable(e@),
    ensures
        event_properties(ev) == event_entry(e@),
        entry_fields(event_properties(ev), e@),
{
    let mut ev = event_new();
    event_set_confirmed(&mut ev);
    event_add_property(&mut ev, "TRANSP", "OPAQUE");
    event_set_summary(&mut ev, e.title.as_str());
    event_set_starts(&mut ev, e.start_time);
    event_set_ends(&mut ev, e.end_time);
    event_set_created(&mut ev, e.created_at);
    event_set_last_modified(&mut ev, e.updated_at);
    match &e.description {
        Some(d) => event_set_description(&mut ev, d.as_str()),
        None => {},
    }
    match &e.location {
        Some(l) => event_set_location(&mut ev, l.as_str()),
        None => {},
    }
    proof {
        lemma_event_entry_fields(e@);
    }
    ev
}

/// The calendar of a guild: named after the guild, cached for one day, in the
/// `America/Edmonton` time zone, with one confirmed, opaque event per stored
/// event in the given order.
///
/// Fails exactly when the guild has no name.
pub fn make_calendar(guild_name: Option<&str>, events: &Vec<EventDetails>) -> (r: Result<
    Calendar,
    BotError,
>)
    requires
        forall|i: int| 0 <= i < events@.len() ==> event_times_representable(#[trigger] events@[i]@),
    ensures
        match guild_name {
            None => r matches Err(e) && e@ == "Cannot make a calendar for a nameless guild."@,
            Some(name) => r matches Ok(cal) && calendar_properties(cal) == feed_properties(name@)
                && calendar_components(cal) == events@.map_values(|e: EventDetails| feed_event(e))
                && calendar_components(cal).len() == events@.len() && forall|i: int|
                0 <= i < events@.len() ==> {
                    &&& (#[trigger] calendar_components(cal)[i]).0 == "VEVENT"@
                    &&& entry_fields(calendar_components(cal)[i].1, events@[i]@)
                },
        },
{
    let name = match guild_name {
        Some(name) => name,
        None => {
            return Err(BotError::new(owned("Cannot make a calendar for a nameless guild.")));
        },
    };
    let mut result = calendar_new();
    calendar_set_name(&mut result, name);
    calendar_set_ttl_days(&mut result, 1);
    calendar_set_timezone(&mut result, "America/Edmonton");
    proof {
        reveal_strlit("PT");
        reveal_strlit("S");
        reveal_strlit("PT86400S");
        assert(decimal(8) =~= seq!['8']);
        assert(decimal(86) =~= seq!['8', '6']);
        assert(decimal(864) =~= seq!['8', '6', '4']);
        assert(decimal(8640) =~= seq!['8', '6', '4', '0']);
        assert(decimal(86400) =~= seq!['8', '6', '4', '0', '0']);
        assert("PT"@ + decimal((1 * 86400) as nat) + "S"@ =~= "PT86400S"@);
        assert(calendar_properties(result) =~= feed_properties(name@));
    }
    let mut i: usize = 0;
    while i < events.len()
        invariant
            i <= events@.len(),
            calendar_properties(result) == feed_properties(name@),
            calendar_components(result) == events@.subrange(0, i as int).map_values(
                |e: EventDetails| feed_event(e),
            ),
            forall|k: int| 0 <= k < events@.len() ==> event_times_representable(#[trigger] events@[k]@),
        decreases events@.len() - i,
    {
        let ev = make_event(&events[i]);
        calendar_push_event(&mut result, ev);
        i = i + 1;
        assert(events@.subrange(0, i as int).map_values(|e: EventDetails| feed_event(e))
            =~= events@.subrange(0, i - 1).map_values(|e: EventDetails| feed_event(e)).push(
            feed_event(events@[i - 1]),
        ));
    }
    assert(events@.subrange(0, i as int) =~= events@);
    proof {
        assert forall|k: int| 0 <= k < events@.len() implies entry_fields(
            (#[trigger] calendar_components(result)[k]).1,
            events@[k]@,
        ) by {
            lemma_event_entry_fields(events@[k]@);
        }
    }
    Ok(result)
}

/// `text` holds the content line of each of the event's own fields: its
/// status, transparency, title and times, and its description and location
/// whenever it has them.
pub open spec fn shows_event(text: Seq<char>, e: EventRecord) -> bool {
    &&& contains_text(text, content_line("STATUS"@, no_params(), "CONFIRMED"@))
    &&& contains_text(text, content_line("TRANSP"@, no_params(), "OPAQUE"@))
    &&& contains_text(text, content_line("SUMMARY"@, no_params(), e.title))
    &&& contains_text(
        text,
        content_line("DTSTART"@, no_params(), utc_date_time_text(e.start_time.secs, e.start_time.nanos)),
    )
    &&& contains_text(
        text,
        content_line("DTEND"@, no_params(), utc_date_time_text(e.end_time.secs, e.end_time.nanos)),
    )
    &&& contains_text(
        text,
        content_line("CREATED"@, no_params(), utc_date_time_text(e.created_at.secs, e.created_at.nanos)),
    )
    &&& contains_text(
        text,
        content_line(
            "LAST-MODIFIED"@,
            no_params(),
            utc_date_time_text(e.updated_at.secs, e.updated_at.nanos),
        ),
    )
    &&& (e.description matches Some(d) ==> contains_text(
        text,
        content_line("DESCRIPTION"@, no_params(), d),
    ))
    &&& (e.location matches Some(l) ==> contains_text(text, content_line("LOCATION"@, no_params(), l)))
}

/// The feed text of a guild's calendar: the calendar that `make_calendar`
/// builds from the guild's name and stored events, written as iCalendar text,
/// with the content lines of the feed's properties in order and one `VEVENT`
/// block per stored event, in order, holding the content line of each entry of
/// the event.
///
/// Fails exactly when the guild has no name, as `make_calendar` does.
pub fn calendar_feed_text(guild_name: Option<&str>, events: &Vec<EventDetails>) -> (r: Result<
    String,
    BotError,
>)
    requires
        forall|i: int| 0 <= i < events@.len() ==> event_times_representable(#[trigger] events@[i]@),
    ensures
        match guild_name {
            None => r matches Err(e) && e@ == "Cannot make a calendar for a nameless guild."@,
            Some(name) => r matches Ok(text) && calendar_rendering(
                text@,
                feed_properties(name@),
                events@.map_values(|e: EventDetails| feed_event(e)),
            ) && forall|i: int| 0 <= i < events@.len() ==> shows_event(text@, #[trigger] events@[i]@),
        },
{
    match make_calendar(guild_name, events) {
        Ok(cal) => {
            let text = calendar_text(&cal);
            proof {
                let props = calendar_properties(cal);
                let comps = calendar_components(cal);
                assert forall|i: int| 0 <= i < events@.len() implies shows_event(
                    text@,
                    #[trigger] events@[i]@,
                ) by {
                    let e = events@[i]@;
                    let m = comps[i].1;
                    assert(entry_fields(m, e));
                    lemma_component_line_in_text(text@, props, comps, i, "STATUS"@);
                    lemma_component_line_in_text(text@, props, comps, i, "TRANSP"@);
                    lemma_component_line_in_text(text@, props, comps, i, "SUMMARY"@);
                    lemma_component_line_in_text(text@, props, comps, i, "DTSTART"@);
                    lemma_component_line_in_text(text@, props, comps, i, "DTEND"@);
                    lemma_component_line_in_text(text@, props, comps, i, "CREATED"@);
                    lemma_component_line_in_text(text@, props, comps, i, "LAST-MODIFIED"@);
                    if e.description is Some {
                        lemma_component_line_in_text(text@, props, comps, i, "DESCRIPTION"@);
                    }
                    if e.location is Some {
                        lemma_component_line_in_text(text@, props, comps, i, "LOCATION"@);
                    }
                }
            }
            Ok(text)
        },
        Err(e) => Err(e),
    }
}

} // verus!
