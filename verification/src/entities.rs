//! The records the bot keeps: scheduled events and guilds.
use vstd::prelude::*;

use rand::Rng;

use crate::text::{
    chars_of, decimal, hex_encode, hex_string, is_lower_hex_char, lemma_hex_encode_shape,
    u64_to_decimal,
};
use crate::time::{now, representable, Timestamp};

verus! {

/// The text of an optional string.
pub open spec fn opt_view(o: Option<String>) -> Option<Seq<char>> {
    match o {
        Some(s) => Some(s@),
        None => None,
    }
}

/// A copy of an optional string.
pub fn clone_opt(o: &Option<String>) -> (r: Option<String>)
    ensures
        opt_view(r) == opt_view(*o),
{
    match o {
        Some(s) => Some(s.clone()),
        None => None,
    }
}

/// Whether two optional strings hold the same text.
pub fn opt_eq(a: &Option<String>, b: &Option<String>) -> (r: bool)
    ensures
        r == (opt_view(*a) == opt_view(*b)),
{
    match (a, b) {
        (Some(x), Some(y)) => *x == *y,
        (None, None) => true,
        _ => false,
    }
}

// ---------------------------------------------------------------------------
// Scheduled events
// ---------------------------------------------------------------------------

/// The content of an event record, as text and values.
pub struct EventRecord {
    pub event_id: Seq<char>,
    pub guild_id: Seq<char>,
    pub title: Seq<char>,
    pub description: Option<Seq<char>>,
    pub location: Option<Seq<char>>,
    pub deleted: bool,
    pub sequence: i64,
    pub start_time: Timestamp,
    pub end_time: Timestamp,
    pub created_at: Timestamp,
    pub updated_at: Timestamp,
}

/// A scheduled event of a guild, as it is stored.
#[derive(Debug)]
pub struct EventDetails {
    pub event_id: String,
    pub guild_id: String,
    pub title: String,
    pub description: Option<String>,
    pub location: Option<String>,
    pub deleted: bool,
    pub sequence: i64,
    pub start_time: Timestamp,
    pub end_time: Timestamp,
    pub created_at: Timestamp,
    pub updated_at: Timestamp,
}

impl View for EventDetails {
    type V = EventRecord;

    open spec fn view(&self) -> EventRecord {
        EventRecord {
            event_id: self.event_id@,
            guild_id: self.guild_id@,
            title: self.title@,
            description: opt_view(self.description),
            location: opt_view(self.location),
            deleted: self.deleted,
            sequence: self.sequence,
            start_time: self.start_time,
            end_time: self.end_time,
            created_at: self.created_at,
            updated_at: self.updated_at,
        }
    }
}

/// The scheduled event as the chat service reports it: identifiers, name,
/// optional description and location, and its start and optional end.
#[derive(Debug)]
pub struct ScheduledEventData {
    pub id: u64,
    pub guild_id: u64,
    pub name: String,
    pub description: Option<String>,
    pub location: Option<String>,
    pub start_time: Timestamp,
    pub end_time: Option<Timestamp>,
}

/// `e` with the creation and update times of `db`.
pub open spec fn with_times_of(e: EventRecord, db: EventRecord) -> EventRecord {
    EventRecord { created_at: db.created_at, updated_at: db.updated_at, ..e }
}

/// What refreshing `e` against the stored version `db` leaves behind, and
/// whether anything but the creation and update times differed.
pub open spec fn refresh_outcome(e: EventRecord, db: EventRecord, check_only: bool) -> (EventRecord, bool) {
    let copied = with_times_of(e, db);
    let changed = db != copied;
    (if !check_only && changed { db } else { copied }, changed)
}

/// `a` and `b` agree on everything but the creation and update times.
pub open spec fn same_content(a: EventRecord, b: EventRecord) -> bool {
    with_times_of(a, b) == b
}

impl Clone for EventDetails {
    fn clone(&self) -> (e: Self)
        ensures
            e@ == self@,
    {
        EventDetails {
            event_id: self.event_id.clone(),
            guild_id: self.guild_id.clone(),
            title: self.title.clone(),
            description: clone_opt(&self.description),
            location: clone_opt(&self.location),
            deleted: self.deleted,
            sequence: self.sequence,
            start_time: self.start_time,
            end_time: self.end_time,
            created_at: self.created_at,
            updated_at: self.updated_at,
        }
    }
}

impl PartialEq for EventDetails {
    fn eq(&self, other: &Self) -> (r: bool) {
        self.same_as(other)
    }
}

impl vstd::std_specs::cmp::PartialEqSpecImpl for EventDetails {
    open spec fn obeys_eq_spec() -> bool {
        true
    }

    open spec fn eq_spec(&self, other: &EventDetails) -> bool {
        self@ == other@
    }
}

impl Eq for EventDetails {

}

impl EventDetails {
    /// Whether the two records hold the same values in every field.
    pub fn same_as(&self, other: &EventDetails) -> (r: bool)
        ensures
            r == (self@ == other@),
    {
        self.event_id == other.event_id && self.guild_id == other.guild_id && self.title
            == other.title && opt_eq(&self.description, &other.description) && opt_eq(
            &self.location,
            &other.location,
        ) && self.deleted == other.deleted && self.sequence == other.sequence && self.start_time
            == other.start_time && self.end_time == other.end_time && self.created_at
            == other.created_at && self.updated_at == other.updated_at
    }

    /// Brings this record up to date with `version_in_db`, its stored version.
    ///
    /// The creation and update times always come from the stored version, which
    /// is authoritative for them. The result tells whether any other field
    /// differs from the stored version; unless `check_only` is set, the record
    /// then takes over the stored version entirely.
    pub fn refresh(&mut self, version_in_db: &EventDetails, check_only: bool) -> (has_changed: bool)
        ensures
            (final(self)@, has_changed) == refresh_outcome(old(self)@, version_in_db@, check_only),
            has_changed == differs_besides_times(old(self)@, version_in_db@),
            final(self)@.created_at == version_in_db.created_at,
            final(self)@.updated_at == version_in_db.updated_at,
            check_only || !has_changed ==> keeps_all_but_times(final(self)@, old(self)@),
            !check_only ==> final(self)@ == version_in_db@,
    {
        self.created_at = version_in_db.created_at;
        self.updated_at = version_in_db.updated_at;
        let has_changed = !version_in_db.same_as(self);
        if !check_only && has_changed {
            *self = version_in_db.clone();
        }
        has_changed
    }

    /// The record for a newly reported scheduled event, created and updated at
    /// `current`.
    ///
    /// Identifiers are kept in decimal; a missing end time is taken to be the
    /// start time; the record is not deleted and has sequence 0.
    pub fn from_scheduled_event_at(value: ScheduledEventData, current: Timestamp) -> (e: EventDetails)
        ensures
            e@.event_id == decimal(value.id as nat),
            e@.guild_id == decimal(value.guild_id as nat),
            e@.title == value.name@,
            e@.description == opt_view(value.description),
            e@.location == opt_view(value.location),
            e@.start_time == value.start_time,
            e@.end_time == (match value.end_time {
                Some(t) => t,
                None => value.start_time,
            }),
            !e@.deleted,
            e@.sequence == 0,
            e@.created_at == current,
            e@.updated_at == current,
    {
        let guild_id = u64_to_decimal(value.guild_id);
        let event_id = u64_to_decimal(value.id);
        let start_time = value.start_time;
        let end_time = match value.end_time {
            Some(time) => time,
            None => start_time,
        };
        EventDetails {
            guild_id,
            event_id,
            start_time,
            end_time,
            title: value.name,
            description: value.description,
            location: value.location,
            created_at: current,
            updated_at: current,
            deleted: false,
            sequence: 0,
        }
    }

    /// The record for a newly reported scheduled event, created and updated at
    /// the current time (`from_scheduled_event_at` with the time the clock
    /// gives).
    ///
    /// Which instant the clock gives is not stated; whatever it is, both times
    /// are that one instant, within chrono's range and not before 1970.
    pub fn from_scheduled_event(value: ScheduledEventData) -> (e: EventDetails)
        ensures
            e@.event_id == decimal(value.id as nat),
            e@.guild_id == decimal(value.guild_id as nat),
            e@.title == value.name@,
            e@.description == opt_view(value.description),
            e@.location == opt_view(value.location),
            e@.start_time == value.start_time,
            e@.end_time == (match value.end_time {
                Some(t) => t,
                None => value.start_time,
            }),
            !e@.deleted,
            e@.sequence == 0,
            e@.created_at == e@.updated_at,
            representable(e@.created_at),
            e@.created_at.secs >= 0,
    {
        let current = now();
        EventDetails::from_scheduled_event_at(value, current)
    }
}

/// `a` and `b` differ in at least one field other than the creation and update
/// times.
pub open spec fn differs_besides_times(a: EventRecord, b: EventRecord) -> bool {
    ||| a.event_id != b.event_id
    ||| a.guild_id != b.guild_id
    ||| a.title != b.title
    ||| a.description != b.description
    ||| a.location != b.location
    ||| a.deleted != b.deleted
    ||| a.sequence != b.sequence
    ||| a.start_time != b.start_time
    ||| a.end_time != b.end_time
}

/// `after` holds the same value as `before` in every field other than the
/// creation and update times.
pub open spec fn keeps_all_but_times(after: EventRecord, before: EventRecord) -> bool {
    &&& after.event_id == before.event_id
    &&& after.guild_id == before.guild_id
    &&& after.title == before.title
    &&& after.description == before.description
    &&& after.location == before.location
    &&& after.deleted == before.deleted
    &&& after.sequence == before.sequence
    &&& after.start_time == before.start_time
    &&& after.end_time == before.end_time
}

/// A refresh reports a change exactly when one of the event's own fields (its
/// identifiers, title, description, location, deletion flag, sequence, start or
/// end) differs from the stored version; it always takes the stored creation
/// and update times; a check-only refresh, or one that finds no change, keeps
/// every other field; and a full refresh leaves the stored version.
pub proof fn lemma_refresh_by_fields(e: EventRecord, db: EventRecord, check_only: bool)
    ensures
        refresh_outcome(e, db, check_only).1 == differs_besides_times(e, db),
        refresh_outcome(e, db, check_only).0.created_at == db.created_at,
        refresh_outcome(e, db, check_only).0.updated_at == db.updated_at,
        check_only || !differs_besides_times(e, db) ==> keeps_all_but_times(
            refresh_outcome(e, db, check_only).0,
            e,
        ),
        !check_only ==> refresh_outcome(e, db, check_only).0 == db,
{
}

/// Refreshing against the stored version without `check_only` always leaves
/// the stored version behind.
pub proof fn lemma_refresh_adopts_stored(e: EventRecord, db: EventRecord)
    ensures
        refresh_outcome(e, db, false).0 == db,
{
}

/// A refresh reports a change exactly when some field other than the creation
/// and update times differs from the stored version.
pub proof fn lemma_refresh_reports_content_change(e: EventRecord, db: EventRecord, check_only: bool)
    ensures
        refresh_outcome(e, db, check_only).1 == !same_content(e, db),
{
}

/// A check-only refresh changes nothing but the creation and update times.
pub proof fn lemma_check_only_keeps_content(e: EventRecord, db: EventRecord)
    ensures
        refresh_outcome(e, db, true).0 == with_times_of(e, db),
        same_content(e, refresh_outcome(e, db, true).0),
{
}

/// Once a record has been refreshed against a stored version, refreshing it
/// again against the same version reports no change and alters nothing.
pub proof fn lemma_refresh_settles(e: EventRecord, db: EventRecord, check_only: bool)
    ensures
        !refresh_outcome(refresh_outcome(e, db, false).0, db, check_only).1,
        refresh_outcome(refresh_outcome(e, db, false).0, db, check_only).0 == db,
{
}

// ---------------------------------------------------------------------------
// Guilds
// ---------------------------------------------------------------------------

/// The content of a guild record, as text and values.
pub struct GuildRow {
    pub guild_id: Seq<char>,
    pub name: Seq<char>,
    pub discriminator: Option<Seq<char>>,
    pub created_at: Timestamp,
    pub updated_at: Timestamp,
}

/// A guild the bot serves, with the discriminator that names its calendar.
#[derive(Debug)]
pub struct GuildRecord {
    pub guild_id: String,
    pub name: String,
    pub discriminator: Option<String>,
    pub created_at: Timestamp,
    pub updated_at: Timestamp,
}

impl View for GuildRecord {
    type V = GuildRow;

    open spec fn view(&self) -> GuildRow {
        GuildRow {
            guild_id: self.guild_id@,
            name: self.name@,
            discriminator: opt_view(self.discriminator),
            created_at: self.created_at,
            updated_at: self.updated_at,
        }
    }
}

impl Clone for GuildRecord {
    fn clone(&self) -> (g: Self)
        ensures
            g@ == self@,
    {
        GuildRecord {
            guild_id: self.guild_id.clone(),
            name: self.name.clone(),
            discriminator: clone_opt(&self.discriminator),
            created_at: self.created_at,
            updated_at: self.updated_at,
        }
    }
}

/// `c` may stand unescaped in a URL: an unreserved URI character
/// (`A-Z`, `a-z`, `0-9`, `-`, `.`, `_`, `~`).
pub open spec fn is_url_safe_char(c: char) -> bool {
    ||| ('A' <= c && c <= 'Z')
    ||| ('a' <= c && c <= 'z')
    ||| ('0' <= c && c <= '9')
    ||| c == '-'
    ||| c == '.'
    ||| c == '_'
    ||| c == '~'
}

/// `s` is a non-empty string of URL-safe characters.
pub open spec fn url_safe(s: Seq<char>) -> bool {
    s.len() > 0 && forall|i: int| 0 <= i < s.len() ==> is_url_safe_char(#[trigger] s[i])
}

/// Sixteen random bytes from the thread-local generator (`rand::rng().random()`).
///
/// The bytes depend on chance; nothing is stated of them.
#[verifier::external_body]
fn random_bytes() -> (bytes: [u8; 16]) {
    rand::rng().random()
}

impl PartialEq for GuildRecord {
    fn eq(&self, other: &Self) -> (r: bool) {
        self.guild_id == other.guild_id && self.name == other.name && opt_eq(
            &self.discriminator,
            &other.discriminator,
        ) && self.created_at == other.created_at && self.updated_at == other.updated_at
    }
}

impl vstd::std_specs::cmp::PartialEqSpecImpl for GuildRecord {
    open spec fn obeys_eq_spec() -> bool {
        true
    }

    open spec fn eq_spec(&self, other: &GuildRecord) -> bool {
        self@ == other@
    }
}

impl Eq for GuildRecord {

}

impl GuildRecord {
    /// The record of a guild known only by its identifier: empty name, no
    /// discriminator, created and updated at `current`.
    pub fn from_id_at(guild_id: u64, current: Timestamp) -> (g: GuildRecord)
        ensures
            g@.guild_id == decimal(guild_id as nat),
            g@.name == Seq::<char>::empty(),
            g@.discriminator is None,
            g@.created_at == current,
            g@.updated_at == current,
    {
        GuildRecord {
            guild_id: u64_to_decimal(guild_id),
            name: String::new(),
            discriminator: None,
            created_at: current,
            updated_at: current,
        }
    }

    /// The record of a guild known only by its identifier, created and updated
    /// at the time the clock gives (`from_id_at` with that time).
    pub fn from_id(guild_id: u64) -> (g: GuildRecord)
        ensures
            g@.guild_id == decimal(guild_id as nat),
            g@.name == Seq::<char>::empty(),
            g@.discriminator is None,
            g@.created_at == g@.updated_at,
            representable(g@.created_at),
            g@.created_at.secs >= 0,
    {
        let current = now();
        GuildRecord::from_id_at(guild_id, current)
    }

    /// The record of a guild with its identifier and name: no discriminator,
    /// created and updated at `current`.
    pub fn from_guild_at(guild_id: u64, name: &str, current: Timestamp) -> (g: GuildRecord)
        ensures
            g@.guild_id == decimal(guild_id as nat),
            g@.name == name@,
            g@.discriminator is None,
            g@.created_at == current,
            g@.updated_at == current,
    {
        GuildRecord {
            guild_id: u64_to_decimal(guild_id),
            name: String::from_str(name),
            discriminator: None,
            created_at: current,
            updated_at: current,
        }
    }

    /// The record of a guild with its identifier and name, created and updated
    /// at the time the clock gives (`from_guild_at` with that time).
    pub fn from_guild(guild_id: u64, name: &str) -> (g: GuildRecord)
        ensures
            g@.guild_id == decimal(guild_id as nat),
            g@.name == name@,
            g@.discriminator is None,
            g@.created_at == g@.updated_at,
            representable(g@.created_at),
            g@.created_at.secs >= 0,
    {
        let current = now();
        GuildRecord::from_guild_at(guild_id, name, current)
    }

    /// A random 32-character hex string: sixteen random bytes, each as two
    /// lower-case hexadecimal digits.
    pub fn generate_discriminator() -> (d: String)
        ensures
            exists|bytes: Seq<u8>| bytes.len() == 16 && d@ == hex_encode(bytes),
            d@.len() == 32,
            url_safe(d@),
    {
        let bytes = random_bytes();
        let d = hex_string(&bytes);
        proof {
            lemma_discriminator_shape(bytes@);
        }
        d
    }

    /// Whether `discriminator` is non-empty and made only of unreserved URI
    /// characters (`A-Z`, `a-z`, `0-9`, `-`, `.`, `_`, `~`).
    pub fn is_url_safe(discriminator: &str) -> (r: bool)
        ensures
            r == url_safe(discriminator@),
            r == (discriminator@.len() > 0 && forall|i: int|
                0 <= i < discriminator@.len() ==> unreserved(#[trigger] discriminator@[i])),
    {
        let cs = chars_of(discriminator);
        if cs.len() == 0 {
            return false;
        }
        let mut i: usize = 0;
        while i < cs.len()
            invariant
                i <= cs@.len(),
                cs@ == discriminator@,
                forall|k: int| 0 <= k < i ==> is_url_safe_char(#[trigger] cs@[k]),
            decreases cs@.len() - i,
        {
            let c = cs[i];
            let ok = ('A' <= c && c <= 'Z') || ('a' <= c && c <= 'z') || ('0' <= c && c <= '9')
                || c == '-' || c == '.' || c == '_' || c == '~';
            if !ok {
                assert(!is_url_safe_char(discriminator@[i as int]));
                proof {
                    lemma_unreserved_char(c);
                }
                return false;
            }
            i = i + 1;
        }
        proof {
            lemma_url_safe_is_unreserved(discriminator@);
        }
        true
    }
}

/// `c` is an unreserved URI character: an ASCII letter, an ASCII digit, or one
/// of `-`, `.`, `_`, `~`, spelled out by code point.
pub open spec fn unreserved(c: char) -> bool {
    let n = c as u32;
    ||| 0x41 <= n <= 0x5A
    ||| 0x61 <= n <= 0x7A
    ||| 0x30 <= n <= 0x39
    ||| n == 0x2D
    ||| n == 0x2E
    ||| n == 0x5F
    ||| n == 0x7E
}

/// An id is URL-safe exactly when it is non-empty and every character is an
/// ASCII letter (all of `A` to `Z` and `a` to `z`), an ASCII digit, `-`, `.`,
/// `_` or `~`.
pub proof fn lemma_url_safe_is_unreserved(s: Seq<char>)
    ensures
        url_safe(s) == (s.len() > 0 && forall|i: int| 0 <= i < s.len() ==> unreserved(#[trigger] s[i])),
{
    assert forall|i: int| 0 <= i < s.len() implies (is_url_safe_char(#[trigger] s[i]) == unreserved(s[i])) by {
        lemma_unreserved_char(s[i]);
    }
}

/// Every ASCII letter, ASCII digit, `-`, `.`, `_` and `~` is a URL-safe id on
/// its own, and no other single character is.
pub proof fn lemma_single_character_ids(c: char)
    ensures
        url_safe(seq![c]) == unreserved(c),
{
    lemma_unreserved_char(c);
    assert(seq![c][0] == c);
}

/// The character classes of `is_url_safe_char` by code point.
proof fn lemma_unreserved_char(c: char)
    ensures
        is_url_safe_char(c) == unreserved(c),
{
}

/// The hex encoding of sixteen bytes is 32 characters long and URL-safe.
pub proof fn lemma_discriminator_shape(bytes: Seq<u8>)
    requires
        bytes.len() == 16,
    ensures
        hex_encode(bytes).len() == 32,
        url_safe(hex_encode(bytes)),
{
    lemma_hex_encode_shape(bytes);
    let h = hex_encode(bytes);
    assert forall|i: int| 0 <= i < h.len() implies is_url_safe_char(#[trigger] h[i]) by {
        assert(is_lower_hex_char(h[i]));
    }
}

} // verus!
