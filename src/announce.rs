//! Announcing a new member in the organization's discussion thread, as the
//! bot's user session does it: the form tokens are read out of the discussion
//! page, and the comment form is written as multipart or urlencoded text.

use vstd::prelude::*;
use rand::RngCore;
use crate::config::Config;
use crate::minter::{base64_decoded, decode_base64};
use crate::text::{hex_of, push_hex};
use vstd::utf8::{encode_utf8, valid_utf8};

verus! {

/// The first capture group of the first match of the regular expression
/// `pattern` in `text`; `None` when the pattern is not valid or does not match.
pub uninterp spec fn regex_capture(pattern: Seq<char>, text: Seq<char>) -> Option<Seq<char>>;

/// Relies on regex's `Regex::new`, `Regex::captures` and `Captures::get(1)`.
#[verifier::external_body]
fn first_capture(pattern: &str, text: &str) -> (r: Option<String>)
    ensures
        match r {
            Some(s) => regex_capture(pattern@, text@) == Some(s@),
            None => regex_capture(pattern@, text@) is None,
        },
{
    let re = regex::Regex::new(pattern).ok()?;
    Some(re.captures(text)?.get(1)?.as_str().to_string())
}

/// Relies on rand's `OsRng` (`RngCore::try_fill_bytes`): four random bytes,
/// or `None` when the system's random source fails.
#[verifier::external_body]
fn random_bytes() -> (r: Option<Vec<u8>>)
    ensures
        r matches Some(v) ==> v@.len() == 4,
{
    let mut buf = [0u8; 4];
    rand::rngs::OsRng.try_fill_bytes(&mut buf).ok()?;
    Some(buf.to_vec())
}

/// Relies on rand's `OsRng` (`RngCore::try_fill_bytes`) for sixteen bytes and
/// uuid's `Builder::from_random_bytes`: a version 4 UUID in its hyphenated
/// text form, or `None` when the system's random source fails.
#[verifier::external_body]
fn random_uuid() -> (r: Option<String>)
    ensures
        r matches Some(s) ==> s@.len() == 36,
{
    let mut buf = [0u8; 16];
    rand::rngs::OsRng.try_fill_bytes(&mut buf).ok()?;
    Some(uuid::Builder::from_random_bytes(buf).into_uuid().to_string())
}

/// Relies on `SystemTime::now`, chrono's conversion of it to a UTC date (which
/// also takes times before 1970) and `DateTime::to_rfc3339_opts` with whole
/// seconds and a `Z` suffix.
#[verifier::external_body]
fn now_rfc3339() -> (r: String) {
    chrono::DateTime::<chrono::Utc>::from(std::time::SystemTime::now())
        .to_rfc3339_opts(chrono::SecondsFormat::Secs, true)
}

/// How `application/x-www-form-urlencoded` writes one byte: ASCII letters,
/// digits and `*-._` unchanged, a space as `+`, anything else as `%XX`.
pub open spec fn urlencode_byte(b: u8) -> Seq<char> {
    if (48 <= b <= 57) || (65 <= b <= 90) || (97 <= b <= 122) || b == 42 || b == 45 || b == 46 || b == 95 {
        seq![b as char]
    } else if b == 32 {
        seq!['+']
    } else {
        seq!['%', upper_hex(b as int / 16), upper_hex(b as int % 16)]
    }
}

/// The upper-case hexadecimal digit for a value below sixteen.
pub open spec fn upper_hex(d: int) -> char {
    if d < 10 {
        (d + 48) as char
    } else {
        (d + 55) as char
    }
}

/// The `application/x-www-form-urlencoded` form of a byte string.
pub open spec fn urlencoded(b: Seq<u8>) -> Seq<char>
    decreases b.len(),
{
    if b.len() == 0 {
        Seq::empty()
    } else {
        urlencoded(b.drop_last()) + urlencode_byte(b.last())
    }
}

/// Relies on `form_urlencoded::byte_serialize` (through rouille's `url`).
#[verifier::external_body]
fn urlencode(s: &str) -> (r: String)
    ensures
        r@ == urlencoded(encode_utf8(s@)),
{
    rouille::url::form_urlencoded::byte_serialize(s.as_bytes()).collect::<String>()
}

/// Relies on `String::from_utf8`: the text, or `None` when the bytes are not UTF-8.
#[verifier::external_body]
fn utf8_text(bytes: Vec<u8>) -> (r: Option<String>)
    ensures
        match r {
            Some(s) => encode_utf8(s@) == bytes@,
            None => !valid_utf8(bytes@),
        },
{
    String::from_utf8(bytes).ok()
}

/// The bot's session cookie: the configured base64 text decoded, when that
/// is valid base64 of UTF-8 text.
pub fn get_user_cookie_from_base64(config: &Config) -> (r: Option<String>)
    ensures
        match base64_decoded(encode_utf8(config.bot_cookie_base64@)) {
            Some(b) => match r {
                Some(c) => encode_utf8(c@) == b,
                None => !valid_utf8(b),
            },
            None => r is None,
        },
{
    let bytes = decode_base64(config.bot_cookie_base64.as_str().as_bytes())?;
    utf8_text(bytes)
}

/// Where the authenticity token follows the comment form.
pub const AUTHENTICITY_PATTERN: &'static str = "(?s)discussions/1/comments.*?authenticity_token.*?value=[\"']([^\"']*)[\"']";

/// The name of the form's required honeypot field.
pub const REQUIRED_FIELD_PATTERN: &'static str = "(?s)name.*?(required_field[^\"']*)[\"']";

/// The form's timestamp.
pub const TIMESTAMP_PATTERN: &'static str = "(?s)name.*?timestamp[\"'].*?value=[\"']([^\"']*)[\"']";

/// The form's timestamp secret.
pub const TIMESTAMP_SECRET_PATTERN: &'static str = "(?s)name.*?timestamp_secret.*?value=[\"']([^\"']*)[\"']";

/// The hidden values that the comment form must send back.
pub struct FormTokens {
    pub authenticity_token: String,
    pub required_field: String,
    pub timestamp: String,
    pub timestamp_secret: String,
}

/// A capture, or nothing when there is none.
pub open spec fn capture_or_empty(pattern: Seq<char>, text: Seq<char>) -> Seq<char> {
    match regex_capture(pattern, text) {
        Some(c) => c,
        None => Seq::empty(),
    }
}

fn capture_or_empty_text(pattern: &str, text: &str) -> (r: String)
    ensures
        r@ == capture_or_empty(pattern@, text@),
{
    match first_capture(pattern, text) {
        Some(c) => c,
        None => String::new(),
    }
}

/// Reads the comment form's hidden values out of the discussion page; a value
/// that cannot be found is left empty.
pub fn pv_gh_get_crsf_token(page: &str) -> (r: FormTokens)
    ensures
        r.authenticity_token@ == capture_or_empty(AUTHENTICITY_PATTERN@, page@),
        r.required_field@ == capture_or_empty(REQUIRED_FIELD_PATTERN@, page@),
        r.timestamp@ == capture_or_empty(TIMESTAMP_PATTERN@, page@),
        r.timestamp_secret@ == capture_or_empty(TIMESTAMP_SECRET_PATTERN@, page@),
{
    FormTokens {
        authenticity_token: capture_or_empty_text(AUTHENTICITY_PATTERN, page),
        required_field: capture_or_empty_text(REQUIRED_FIELD_PATTERN, page),
        timestamp: capture_or_empty_text(TIMESTAMP_PATTERN, page),
        timestamp_secret: capture_or_empty_text(TIMESTAMP_SECRET_PATTERN, page),
    }
}

impl FormTokens {
    /// Whether every value was found.
    pub open spec fn is_complete(&self) -> bool {
        &&& self.authenticity_token@.len() > 0
        &&& self.required_field@.len() > 0
        &&& self.timestamp@.len() > 0
        &&& self.timestamp_secret@.len() > 0
    }

    /// Whether every value was found.
    pub fn complete(&self) -> (r: bool)
        ensures
            r == self.is_complete(),
    {
        self.authenticity_token.as_str().unicode_len() > 0 && self.required_field.as_str().unicode_len() > 0
            && self.timestamp.as_str().unicode_len() > 0 && self.timestamp_secret.as_str().unicode_len() > 0
    }
}

/// A list of form fields as text pairs.
pub open spec fn pairs(v: Seq<(String, String)>) -> Seq<(Seq<char>, Seq<char>)> {
    v.map_values(|p: (String, String)| (p.0@, p.1@))
}

/// One part of a `multipart/form-data` body.
pub open spec fn form_part_of(boundary: Seq<char>, name: Seq<char>, value: Seq<char>) -> Seq<char> {
    "--"@ + boundary + "\r\nContent-Disposition: form-data; name=\""@ + name + "\"\r\n\r\n"@ + value
        + "\r\n"@
}

/// The parts of a `multipart/form-data` body, one per field, in order.
pub open spec fn form_parts_of(boundary: Seq<char>, fields: Seq<(Seq<char>, Seq<char>)>) -> Seq<char>
    decreases fields.len(),
{
    if fields.len() == 0 {
        Seq::empty()
    } else {
        form_parts_of(boundary, fields.drop_last()) + form_part_of(
            boundary,
            fields.last().0,
            fields.last().1,
        )
    }
}

/// A whole `multipart/form-data` body: the parts, then the closing boundary.
pub open spec fn multipart_of(boundary: Seq<char>, fields: Seq<(Seq<char>, Seq<char>)>) -> Seq<char> {
    form_parts_of(boundary, fields) + "--"@ + boundary + "--\r\n"@
}

/// Fields written as `name=value` and joined with `&`.
pub open spec fn joined_of(fields: Seq<(Seq<char>, Seq<char>)>) -> Seq<char>
    decreases fields.len(),
{
    if fields.len() == 0 {
        Seq::empty()
    } else if fields.len() == 1 {
        fields[0].0 + "="@ + fields[0].1
    } else {
        joined_of(fields.drop_last()) + "&"@ + fields.last().0 + "="@ + fields.last().1
    }
}

/// One part of a `multipart/form-data` body.
pub fn create_form_part(boundary: &str, name: &str, value: &str) -> (r: String)
    ensures
        r@ == form_part_of(boundary@, name@, value@),
{
    let mut s = String::from_str("--");
    s.append(boundary);
    s.append("\r\nContent-Disposition: form-data; name=\"");
    s.append(name);
    s.append("\"\r\n\r\n");
    s.append(value);
    s.append("\r\n");
    assert(s@ =~= form_part_of(boundary@, name@, value@));
    s
}

/// A `multipart/form-data` body with the given fields.
pub fn multipart_body(boundary: &str, fields: &Vec<(String, String)>) -> (r: String)
    ensures
        r@ == multipart_of(boundary@, pairs(fields@)),
{
    let mut s = String::new();
    let mut i: usize = 0;
    assert(pairs(fields@).subrange(0, 0) =~= Seq::<(Seq<char>, Seq<char>)>::empty());
    while i < fields.len()
        invariant
            0 <= i <= fields@.len(),
            s@ == form_parts_of(boundary@, pairs(fields@).subrange(0, i as int)),
        decreases fields@.len() - i,
    {
        let part = create_form_part(boundary, fields[i].0.as_str(), fields[i].1.as_str());
        s.append(part.as_str());
        assert(pairs(fields@).subrange(0, i + 1).drop_last() =~= pairs(fields@).subrange(0, i as int));
        i = i + 1;
        assert(s@ =~= form_parts_of(boundary@, pairs(fields@).subrange(0, i as int)));
    }
    assert(pairs(fields@).subrange(0, fields@.len() as int) =~= pairs(fields@));
    s.append("--");
    s.append(boundary);
    s.append("--\r\n");
    assert(s@ =~= multipart_of(boundary@, pairs(fields@)));
    s
}

/// An `application/x-www-form-urlencoded` body with the given fields, whose
/// names and values are already encoded.
pub fn urlencoded_body(fields: &Vec<(String, String)>) -> (r: String)
    ensures
        r@ == joined_of(pairs(fields@)),
{
    let mut s = String::new();
    let mut i: usize = 0;
    assert(pairs(fields@).subrange(0, 0) =~= Seq::<(Seq<char>, Seq<char>)>::empty());
    while i < fields.len()
        invariant
            0 <= i <= fields@.len(),
            s@ == joined_of(pairs(fields@).subrange(0, i as int)),
        decreases fields@.len() - i,
    {
        if i > 0 {
            s.append("&");
        }
        s.append(fields[i].0.as_str());
        s.append("=");
        s.append(fields[i].1.as_str());
        assert(pairs(fields@).subrange(0, i + 1).drop_last() =~= pairs(fields@).subrange(0, i as int));
        i = i + 1;
        assert(s@ =~= joined_of(pairs(fields@).subrange(0, i as int)));
    }
    assert(pairs(fields@).subrange(0, fields@.len() as int) =~= pairs(fields@));
    s
}

/// The boundary of a multipart body made from random bytes.
pub fn boundary_from(random: &[u8]) -> (r: String)
    ensures
        r@ == "----WebKitFormBoundary"@ + hex_of(random@),
{
    let mut s = String::from_str("----WebKitFormBoundary");
    push_hex(&mut s, random);
    s
}

/// The note that announces an invitation of `who`, issued on `date`.
pub open spec fn invite_note_of(who: Seq<char>, date: Seq<char>) -> Seq<char> {
    "```\nUser "@ + who + " has been invited to join the organization.\n\nInvitation issued on "@ + date
        + ".\n"@
}

/// The note that announces an invitation of `who`, issued on `date`.
pub fn invite_note(who: &str, date: &str) -> (r: String)
    ensures
        r@ == invite_note_of(who@, date@),
{
    let mut s = String::from_str("```\nUser ");
    s.append(who);
    s.append(" has been invited to join the organization.\n\nInvitation issued on ");
    s.append(date);
    s.append(".\n");
    assert(s@ =~= invite_note_of(who@, date@));
    s
}

/// The profile page of `user`.
pub fn profile_url(user: &str) -> (r: String)
    ensures
        r@ == "https://github.com/"@ + user@,
{
    let mut s = String::from_str("https://github.com/");
    s.append(user);
    s
}

/// The discussion page that holds the comment form.
pub fn discussion_url(org: &str) -> (r: String)
    ensures
        r@ == "https://github.com/orgs/"@ + org@ + "/discussions/1"@,
{
    let mut s = String::from_str("https://github.com/orgs/");
    s.append(org);
    s.append("/discussions/1");
    s
}

/// Where the comment form is posted.
pub fn comments_url(org: &str) -> (r: String)
    ensures
        r@ == "https://github.com/"@ + org@ + "/access-to-private-repos/discussions/1/comments"@,
{
    let mut s = String::from_str("https://github.com/");
    s.append(org);
    s.append("/access-to-private-repos/discussions/1/comments");
    s
}

fn field(name: &str, value: &str) -> (r: (String, String))
    ensures
        r.0@ == name@,
        r.1@ == value@,
{
    (String::from_str(name), String::from_str(value))
}

/// The comment form's fields, in the order the page sends them; the
/// urlencoded form has the reply filter field as well.
pub open spec fn comment_fields_of(
    authenticity_token: Seq<char>,
    required_field: Seq<char>,
    timestamp: Seq<char>,
    timestamp_secret: Seq<char>,
    comment: Seq<char>,
    urlencoded_form: bool,
) -> Seq<(Seq<char>, Seq<char>)> {
    let head = seq![
        ("authenticity_token"@, authenticity_token),
        (required_field, ""@),
        ("timestamp"@, timestamp),
        ("timestamp_secret"@, timestamp_secret),
        ("saved_reply_id"@, ""@),
    ];
    let filter: Seq<(Seq<char>, Seq<char>)> = if urlencoded_form {
        seq![("saved-reply-filter-field"@, ""@)]
    } else {
        Seq::empty()
    };
    head + filter + seq![
        ("comment[body]"@, comment),
        ("path"@, ""@),
        ("line"@, ""@),
        ("start_line"@, ""@),
        ("start_commit_oid"@, ""@),
        ("end_commit_oid"@, ""@),
        ("base_commit_oid"@, ""@),
        ("comment_id"@, ""@),
    ]
}

/// The comment form's fields for the given tokens and comment text.
pub fn comment_fields(t: &FormTokens, comment: &str, urlencoded_form: bool) -> (r: Vec<(String, String)>)
    ensures
        pairs(r@) == comment_fields_of(
            t.authenticity_token@,
            t.required_field@,
            t.timestamp@,
            t.timestamp_secret@,
            comment@,
            urlencoded_form,
        ),
{
    let mut v: Vec<(String, String)> = Vec::new();
    v.push(field("authenticity_token", t.authenticity_token.as_str()));
    v.push(field(t.required_field.as_str(), ""));
    v.push(field("timestamp", t.timestamp.as_str()));
    v.push(field("timestamp_secret", t.timestamp_secret.as_str()));
    v.push(field("saved_reply_id", ""));
    if urlencoded_form {
        v.push(field("saved-reply-filter-field", ""));
    }
    v.push(field("comment[body]", comment));
    v.push(field("path", ""));
    v.push(field("line", ""));
    v.push(field("start_line", ""));
    v.push(field("start_commit_oid", ""));
    v.push(field("end_commit_oid", ""));
    v.push(field("base_commit_oid", ""));
    v.push(field("comment_id", ""));
    assert(pairs(v@) =~= comment_fields_of(
        t.authenticity_token@,
        t.required_field@,
        t.timestamp@,
        t.timestamp_secret@,
        comment@,
        urlencoded_form,
    ));
    v
}

/// A comment post, ready to send.
pub struct Announcement {
    pub url: String,
    pub content_type: String,
    pub body: String,
    /// The `x-fetch-nonce` header; empty for the urlencoded form.
    pub nonce: String,
}

/// Whether the discussion page holds every value that the form sends back.
pub open spec fn page_complete(page: Seq<char>) -> bool {
    &&& capture_or_empty(AUTHENTICITY_PATTERN@, page).len() > 0
    &&& capture_or_empty(REQUIRED_FIELD_PATTERN@, page).len() > 0
    &&& capture_or_empty(TIMESTAMP_PATTERN@, page).len() > 0
    &&& capture_or_empty(TIMESTAMP_SECRET_PATTERN@, page).len() > 0
}

/// The comment form's fields with the values read from the discussion page.
pub open spec fn page_fields(page: Seq<char>, comment: Seq<char>, urlencoded_form: bool) -> Seq<
    (Seq<char>, Seq<char>),
> {
    comment_fields_of(
        capture_or_empty(AUTHENTICITY_PATTERN@, page),
        capture_or_empty(REQUIRED_FIELD_PATTERN@, page),
        capture_or_empty(TIMESTAMP_PATTERN@, page),
        capture_or_empty(TIMESTAMP_SECRET_PATTERN@, page),
        comment,
        urlencoded_form,
    )
}

/// Where the comment form of `org`'s discussion is posted.
pub open spec fn comments_url_of(org: Seq<char>) -> Seq<char> {
    "https://github.com/"@ + org + "/access-to-private-repos/discussions/1/comments"@
}

/// The multipart announcement of `user`, from the discussion page `page`, for
/// a given boundary, date and nonce; `None` when the page lacks a form value.
pub fn multipart_announcement(org: &str, user: &str, page: &str, boundary: &str, date: &str, nonce: &str) -> (r:
    Option<Announcement>)
    ensures
        r is Some <==> page_complete(page@),
        r matches Some(a) ==> {
            &&& a.url@ == comments_url_of(org@)
            &&& a.content_type@ == "multipart/form-data; boundary="@ + boundary@
            &&& a.body@ == multipart_of(
                boundary@,
                page_fields(page@, invite_note_of("https://github.com/"@ + user@, date@), false),
            )
            &&& a.nonce@ == "v2:"@ + nonce@
        },
{
    let tokens = pv_gh_get_crsf_token(page);
    if !tokens.complete() {
        return None;
    }
    let profile = profile_url(user);
    let note = invite_note(profile.as_str(), date);
    let fields = comment_fields(&tokens, note.as_str(), false);
    let body = multipart_body(boundary, &fields);
    let mut content_type = String::from_str("multipart/form-data; boundary=");
    content_type.append(boundary);
    let mut n = String::from_str("v2:");
    n.append(nonce);
    Some(Announcement { url: comments_url(org), content_type, body, nonce: n })
}

/// The urlencoded announcement of `user`, from the discussion page `page`, for
/// a given date; `None` when the page lacks a form value.
pub fn urlencoded_announcement(org: &str, user: &str, page: &str, date: &str) -> (r: Option<Announcement>)
    ensures
        r is Some <==> page_complete(page@),
        r matches Some(a) ==> {
            &&& a.url@ == comments_url_of(org@)
            &&& a.content_type@ == "application/x-www-form-urlencoded"@
            &&& a.body@ == joined_of(
                page_fields(page@, urlencoded(encode_utf8(invite_note_of(user@, date@))), true),
            )
            &&& a.nonce@.len() == 0
        },
{
    let tokens = pv_gh_get_crsf_token(page);
    if !tokens.complete() {
        return None;
    }
    let note = invite_note(user, date);
    let encoded = urlencode(note.as_str());
    let fields = comment_fields(&tokens, encoded.as_str(), true);
    let body = urlencoded_body(&fields);
    Some(
        Announcement {
            url: comments_url(org),
            content_type: String::from_str("application/x-www-form-urlencoded"),
            body,
            nonce: String::new(),
        },
    )
}

/// `a` is the multipart announcement of `user` from `page` for the boundary,
/// date and nonce given.
pub open spec fn multipart_post(
    a: Announcement,
    org: Seq<char>,
    user: Seq<char>,
    page: Seq<char>,
    boundary: Seq<char>,
    date: Seq<char>,
    nonce: Seq<char>,
) -> bool {
    &&& a.url@ == comments_url_of(org)
    &&& a.content_type@ == "multipart/form-data; boundary="@ + boundary
    &&& a.body@ == multipart_of(boundary, page_fields(page, invite_note_of("https://github.com/"@ + user, date), false))
    &&& a.nonce@ == "v2:"@ + nonce
}

/// `a` is the urlencoded announcement of `user` from `page` for the date given.
pub open spec fn urlencoded_post(a: Announcement, org: Seq<char>, user: Seq<char>, page: Seq<char>, date: Seq<char>) -> bool {
    &&& a.url@ == comments_url_of(org)
    &&& a.content_type@ == "application/x-www-form-urlencoded"@
    &&& a.body@ == joined_of(page_fields(page, urlencoded(encode_utf8(invite_note_of(user, date))), true))
    &&& a.nonce@.len() == 0
}

/// Prepares the multipart announcement that `user` was invited, with a
/// boundary made of four random bytes, the current date and a fresh random
/// nonce; `None` when the page lacks a form value or randomness fails.
pub fn pv_gh_announce_collaborator_multipart(org: &str, user: &str, page: &str) -> (r: Option<Announcement>)
    ensures
        !page_complete(page@) ==> r is None,
        r matches Some(a) ==> page_complete(page@) && exists|rb: Seq<u8>, date: Seq<char>, nonce: Seq<char>|
            rb.len() == 4 && nonce.len() == 36 && #[trigger] multipart_post(
                a,
                org@,
                user@,
                page@,
                "----WebKitFormBoundary"@ + hex_of(rb),
                date,
                nonce,
            ),
{
    let bytes = random_bytes()?;
    let nonce = random_uuid()?;
    let boundary = boundary_from(bytes.as_slice());
    let date = now_rfc3339();
    let r = multipart_announcement(org, user, page, boundary.as_str(), date.as_str(), nonce.as_str());
    proof {
        if r is Some {
            assert(multipart_post(r->0, org@, user@, page@, "----WebKitFormBoundary"@ + hex_of(bytes@), date@, nonce@));
        }
    }
    r
}

/// Prepares the urlencoded announcement that `user` was invited, dated now;
/// `None` when the page lacks a form value.
pub fn pv_gh_announce_collaborator_urlencoded(org: &str, user: &str, page: &str) -> (r: Option<Announcement>)
    ensures
        r is Some <==> page_complete(page@),
        r matches Some(a) ==> exists|date: Seq<char>| #[trigger] urlencoded_post(a, org@, user@, page@, date),
{
    let date = now_rfc3339();
    let r = urlencoded_announcement(org, user, page, date.as_str());
    proof {
        if r is Some {
            assert(urlencoded_post(r->0, org@, user@, page@, date@));
        }
    }
    r
}

/// A comment post went through: `200 OK` or `201 Created`.
pub fn announcement_posted(status: i32) -> (r: bool)
    ensures
        r == (status == 200 || status == 201),
{
    status == 200 || status == 201
}

} // verus!
