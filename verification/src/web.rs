//! The web side: where the calendar routes are mounted, and what each request
//! is answered.
use vstd::prelude::*;

use crate::entities::{is_url_safe_char, url_safe};
use crate::state::calendar_url_spec;
use crate::text::{
    chars_of, concat3, find, find_chars, lemma_find_characterised, lemma_trim_end_char, occurs_at,
    owned, string_of, suffix_from, trim_end_char, trim_end_char_chars,
};

verus! {

/// The position just past the first `://` of `u`, or 0 when it has none.
pub open spec fn after_scheme(u: Seq<char>) -> int {
    match find(u, "://"@) {
        Some(i) => i + 3,
        None => 0,
    }
}

/// The path part of a URL: from the first `/` after the scheme separator to the
/// end, or empty when there is no such `/`. This is the path a client requests.
pub open spec fn request_path(u: Seq<char>) -> Seq<char> {
    let a = after_scheme(u);
    match find(u.subrange(a, u.len() as int), seq!['/']) {
        Some(i) => u.subrange(a + i, u.len() as int),
        None => Seq::empty(),
    }
}

/// The path prefix under which the routes are mounted: the path part of the
/// base URL without trailing slashes.
pub open spec fn base_path_spec(base_url: Seq<char>) -> Seq<char> {
    trim_end_char(request_path(base_url), '/')
}

/// The path of the calendar route for a discriminator, relative to the mount
/// point.
pub open spec fn calendar_route(discriminator: Seq<char>) -> Seq<char> {
    "/ical/"@ + discriminator + "/ical.ics"@
}

/// An answer to an HTTP request: status code, the headers set explicitly, and
/// the body.
pub struct HttpReply {
    pub status: u16,
    pub content_type: Option<String>,
    pub content_disposition: Option<String>,
    pub body: String,
}

/// What became of a calendar request once the guild was looked up and, if
/// found, its calendar rendered.
pub enum IcalOutcome {
    /// Looking the discriminator up in the database failed.
    LookupFailed,
    /// No guild has the discriminator.
    NotFound,
    /// The guild was found but its calendar could not be made.
    RenderFailed,
    /// The calendar, rendered as iCalendar text.
    Rendered(String),
}

/// The path prefix under which the routes are mounted, taken from the base
/// URL: everything from the first `/` after the scheme (`http://` and the like)
/// with trailing slashes removed, or empty when the base URL has no path.
pub fn base_path(base_url: &str) -> (p: String)
    ensures
        p@ == base_path_spec(base_url@),
{
    let u = chars_of(base_url);
    let ulen = u.len();
    let sep = chars_of("://");
    proof {
        reveal_strlit("://");
    }
    let after: usize = match find_chars(u.as_slice(), sep.as_slice()) {
        Some(i) => {
            proof {
                lemma_find_characterised(u@, sep@, i as int);
            }
            i + 3
        },
        None => 0,
    };
    let rest = suffix_from(u.as_slice(), after);
    assert(rest@.len() == ulen - after);
    let slash: Vec<char> = vec!['/'];
    assert(slash@ =~= seq!['/']);
    match find_chars(rest.as_slice(), slash.as_slice()) {
        Some(i) => {
            proof {
                lemma_find_characterised(rest@, slash@, i as int);
            }
            let path = suffix_from(u.as_slice(), after + i);
            let trimmed = trim_end_char_chars(path.as_slice(), '/');
            string_of(trimmed.as_slice())
        },
        None => String::new(),
    }
}

/// `GET /health`: `200 OK` when the database answered, else `500` with
/// `Unknown error`.
pub fn health_check(database_ok: bool) -> (r: HttpReply)
    ensures
        database_ok ==> r.status == 200 && r.body@ == "OK"@,
        !database_ok ==> r.status == 500 && r.body@ == "Unknown error"@,
        r.content_type is None,
        r.content_disposition is None,
{
    if database_ok {
        HttpReply { status: 200, content_type: None, content_disposition: None, body: owned("OK") }
    } else {
        HttpReply {
            status: 500,
            content_type: None,
            content_disposition: None,
            body: owned("Unknown error"),
        }
    }
}

/// `GET /` and `GET /index.html`: a small page that shows the bot's version.
pub fn hello_world(version: &str) -> (page: String)
    ensures
        page@ == "<!DOCTYPE html><html><head><title>iCalBot</title></head><body><h1>Hello World</h1><p>Version: "@
            + version@ + "</p></body></html>"@,
{
    concat3(
        "<!DOCTYPE html><html><head><title>iCalBot</title></head><body><h1>Hello World</h1><p>Version: ",
        version,
        "</p></body></html>",
    )
}

/// `GET /ical/{discriminator}/ical.ics`: the answer for each outcome of the
/// lookup and rendering.
pub fn ical_service(outcome: IcalOutcome) -> (r: HttpReply)
    ensures
        match outcome {
            IcalOutcome::LookupFailed => r.status == 500 && r.body@ == "Internal server error"@
                && r.content_type is None && r.content_disposition is None,
            IcalOutcome::NotFound => r.status == 404 && r.body@ == "Calendar not found"@
                && r.content_type is None && r.content_disposition is None,
            IcalOutcome::RenderFailed => r.status == 500 && r.body@
                == "Failed to generate calendar"@ && r.content_type is None
                && r.content_disposition is None,
            IcalOutcome::Rendered(text) => {
                &&& r.status == 200
                &&& r.body@ == text@
                &&& r.content_type matches Some(ct) && ct@ == "text/calendar; charset=utf-8"@
                &&& r.content_disposition matches Some(cd) && cd@
                    == "inline; filename=\"ical.ics\""@
            },
        },
{
    match outcome {
        IcalOutcome::LookupFailed => HttpReply {
            status: 500,
            content_type: None,
            content_disposition: None,
            body: owned("Internal server error"),
        },
        IcalOutcome::NotFound => HttpReply {
            status: 404,
            content_type: None,
            content_disposition: None,
            body: owned("Calendar not found"),
        },
        IcalOutcome::RenderFailed => HttpReply {
            status: 500,
            content_type: None,
            content_disposition: None,
            body: owned("Failed to generate calendar"),
        },
        IcalOutcome::Rendered(text) => HttpReply {
            status: 200,
            content_type: Some(owned("text/calendar; charset=utf-8")),
            content_disposition: Some(owned("inline; filename=\"ical.ics\"")),
            body: text,
        },
    }
}

/// An occurrence found in `s` is still the first one once `t` is appended.
proof fn lemma_find_in_prefix(s: Seq<char>, t: Seq<char>, p: Seq<char>, k: int)
    requires
        find(s, p) == Some(k),
    ensures
        find(s + t, p) == Some(k),
{
    lemma_find_characterised(s, p, k);
    let u = s + t;
    assert(u.subrange(k, k + p.len()) =~= s.subrange(k, k + p.len()));
    assert forall|j: int| 0 <= j < k implies !#[trigger] occurs_at(u, p, j) by {
        assert(u.subrange(j, j + p.len()) =~= s.subrange(j, j + p.len()));
        assert(!occurs_at(s, p, j));
    }
    lemma_find_characterised(u, p, k);
}

/// With no `/` in `s`, the first `/` of `s + t` is the first character of `t`.
proof fn lemma_find_slash_at_join(s: Seq<char>, t: Seq<char>)
    requires
        find(s, seq!['/']) is None,
        t.len() > 0,
        t[0] == '/',
    ensures
        find(s + t, seq!['/']) == Some(s.len() as int),
{
    let p = seq!['/'];
    let u = s + t;
    lemma_find_characterised(s, p, 0);
    assert(u.subrange(s.len() as int, s.len() + 1int) =~= p);
    assert forall|j: int| 0 <= j < s.len() implies !#[trigger] occurs_at(u, p, j) by {
        assert(u.subrange(j, j + 1) =~= s.subrange(j, j + 1));
        assert(!occurs_at(s, p, j));
    }
    lemma_find_characterised(u, p, s.len() as int);
}

/// The calendar route holds no `:`.
proof fn lemma_route_has_no_colon(d: Seq<char>)
    requires
        url_safe(d),
    ensures
        forall|i: int| 0 <= i < calendar_route(d).len() ==> #[trigger] calendar_route(d)[i] != ':',
{
    reveal_strlit("/ical/");
    reveal_strlit("/ical.ics");
    let r = calendar_route(d);
    assert forall|i: int| 0 <= i < r.len() implies #[trigger] r[i] != ':' by {
        if 6 <= i < 6 + d.len() {
            assert(r[i] == d[i - 6]);
            assert(is_url_safe_char(d[i - 6]));
        }
    }
}

/// Appending the calendar route to a base URL that does not end with `/` adds no
/// `://` when the base URL has none.
proof fn lemma_no_new_scheme(base: Seq<char>, d: Seq<char>)
    requires
        url_safe(d),
        base.len() == 0 || base.last() != '/',
        find(base, "://"@) is None,
    ensures
        find(base + calendar_route(d), "://"@) is None,
{
    reveal_strlit("://");
    reveal_strlit("/ical/");
    reveal_strlit("/ical.ics");
    let sep = "://"@;
    let t = calendar_route(d);
    let u = base + t;
    lemma_route_has_no_colon(d);
    lemma_find_characterised(base, sep, 0);
    assert forall|j: int| 0 <= j implies !#[trigger] occurs_at(u, sep, j) by {
        if occurs_at(u, sep, j) {
            let w = u.subrange(j, j + 3);
            assert(w[0] == ':' && w[1] == '/' && w[2] == '/');
            if j + 3 <= base.len() {
                assert(base.subrange(j, j + 3) =~= w);
                assert(occurs_at(base, sep, j));
            } else if j >= base.len() {
                assert(u[j] == t[j - base.len()]);
            } else if j == base.len() - 1 {
                assert(u[j + 2] == t[1]);
            } else {
                assert(u[j + 1] == base.last());
            }
        }
    }
    lemma_find_characterised(u, sep, 0);
}

/// The calendar URL handed to users reaches the calendar route: for a base URL
/// without a trailing `/` and a URL-safe discriminator, the path a client
/// requests for `calendar_url` is the mount point taken from the same base URL
/// followed by `/ical/{discriminator}/ical.ics`.
pub proof fn lemma_calendar_url_reaches_route(base_url: Seq<char>, discriminator: Seq<char>)
    requires
        url_safe(discriminator),
        base_url.len() == 0 || base_url.last() != '/',
    ensures
        request_path(calendar_url_spec(base_url, discriminator)) == base_path_spec(base_url)
            + calendar_route(discriminator),
{
    reveal_strlit("://");
    reveal_strlit("/ical/");
    let b = base_url;
    let t = calendar_route(discriminator);
    let u = b + t;
    assert(calendar_url_spec(b, discriminator) =~= u);
    // The scheme separator is where it was in the base URL.
    match find(b, "://"@) {
        Some(k) => {
            lemma_find_characterised(b, "://"@, k);
            lemma_find_in_prefix(b, t, "://"@, k);
        },
        None => {
            lemma_no_new_scheme(b, discriminator);
        },
    }
    let a = after_scheme(b);
    assert(after_scheme(u) == a);
    assert(0 <= a <= b.len());
    let rest_b = b.subrange(a, b.len() as int);
    let rest_u = u.subrange(a, u.len() as int);
    assert(rest_u =~= rest_b + t);
    match find(rest_b, seq!['/']) {
        Some(i) => {
            lemma_find_characterised(rest_b, seq!['/'], i);
            lemma_find_in_prefix(rest_b, t, seq!['/'], i);
            let path_b = b.subrange(a + i, b.len() as int);
            assert(u.subrange(a + i, u.len() as int) =~= path_b + t);
            assert(path_b.len() > 0 && path_b.last() == b.last());
            lemma_trim_end_char(path_b, '/');
        },
        None => {
            lemma_find_slash_at_join(rest_b, t);
            assert(u.subrange(a + rest_b.len(), u.len() as int) =~= t);
            assert(base_path_spec(b) =~= Seq::<char>::empty());
            assert(Seq::<char>::empty() + t =~= t);
        },
    }
}

/// The mount point is either empty or a path that starts with `/` and does not
/// end with one.
pub proof fn lemma_base_path_shape(base_url: Seq<char>)
    ensures
        base_path_spec(base_url).len() == 0 || (base_path_spec(base_url)[0] == '/'
            && base_path_spec(base_url).last() != '/'),
{
    reveal_strlit("://");
    let a = after_scheme(base_url);
    match find(base_url, "://"@) {
        Some(k) => {
            lemma_find_characterised(base_url, "://"@, k);
        },
        None => {},
    }
    assert(0 <= a <= base_url.len());
    let rest = base_url.subrange(a, base_url.len() as int);
    let p = request_path(base_url);
    lemma_trim_end_char(p, '/');
    let r = trim_end_char(p, '/');
    match find(rest, seq!['/']) {
        Some(i) => {
            lemma_find_characterised(rest, seq!['/'], i);
            assert(occurs_at(rest, seq!['/'], i));
            assert(rest.subrange(i, i + 1) == seq!['/']);
            assert(rest.subrange(i, i + 1)[0] == rest[i]);
            assert(rest[i] == '/');
            assert(p == base_url.subrange(a + i, base_url.len() as int));
            assert(p[0] == rest[i]);
            if r.len() > 0 {
                assert(r[0] == p[0]);
            }
        },
        None => {},
    }
}

} // verus!
