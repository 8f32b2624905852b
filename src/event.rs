//! The event classifier and the handlers' decisions. An event's kind is read
//! from its shape: the `action` field together with the sender's
//! `starred_url` marker.

use vstd::prelude::*;
use crate::json::{i64_at, json_i64_at, json_str_at, opt_text, str_at};

verus! {

/// The closed set of event kinds that the bot recognises.
#[derive(Clone, Copy, Debug, PartialEq, Eq, Structural)]
pub enum EventKind {
    StarCreated,
    StarDeleted,
    /// No rule matched; such an event is ignored.
    Unrecognized,
}

/// The fields of a webhook event that the bot reads; an absent field, or one
/// of another JSON type, is `None`.
pub struct Envelope {
    pub action: Option<String>,
    pub starred_url: Option<String>,
    pub full_name: Option<String>,
    pub sender_id: Option<i64>,
    pub sender_login: Option<String>,
}

/// The text of an optional field, empty when it is absent.
pub open spec fn text_or_empty(v: Option<String>) -> Seq<char> {
    match v {
        Some(s) => s@,
        None => Seq::empty(),
    }
}

/// The classification rule: `created` or `deleted` with a non-empty marker
/// are stars given or taken back; anything else is not recognised.
pub open spec fn classify(action: Seq<char>, marker: Seq<char>) -> EventKind {
    if marker.len() > 0 && action == "created"@ {
        EventKind::StarCreated
    } else if marker.len() > 0 && action == "deleted"@ {
        EventKind::StarDeleted
    } else {
        EventKind::Unrecognized
    }
}

/// The kind of an envelope.
pub open spec fn kind_of(e: Envelope) -> EventKind {
    classify(text_or_empty(e.action), text_or_empty(e.starred_url))
}

/// `e` holds what the webhook body `b` has at each field's JSON pointer.
pub open spec fn envelope_read(b: Seq<u8>, e: Envelope) -> bool {
    &&& opt_text(e.action) == json_str_at(b, "/action"@)
    &&& opt_text(e.starred_url) == json_str_at(b, "/sender/starred_url"@)
    &&& opt_text(e.full_name) == json_str_at(b, "/repository/full_name"@)
    &&& e.sender_id == json_i64_at(b, "/sender/id"@)
    &&& opt_text(e.sender_login) == json_str_at(b, "/sender/login"@)
}

impl Envelope {
    /// Reads the envelope's fields out of a webhook body.
    pub fn from_json(body: &[u8]) -> (r: Envelope)
        ensures
            envelope_read(body@, r),
    {
        Envelope {
            action: str_at(body, "/action"),
            starred_url: str_at(body, "/sender/starred_url"),
            full_name: str_at(body, "/repository/full_name"),
            sender_id: i64_at(body, "/sender/id"),
            sender_login: str_at(body, "/sender/login"),
        }
    }
}

fn text_is(v: &Option<String>, word: &str) -> (r: bool)
    ensures
        r == (text_or_empty(*v) == word@),
{
    match v {
        Some(s) => {
            let w = String::from_str(word);
            *s == w
        },
        None => {
            let n = word.unicode_len();
            proof {
                if n == 0 {
                    assert(word@ =~= Seq::<char>::empty());
                }
            }
            n == 0
        },
    }
}

/// Classifies an envelope: `StarCreated` for `action` `created`, `StarDeleted`
/// for `deleted`, each with a non-empty `starred_url` marker; otherwise
/// `Unrecognized`, which is no error.
pub fn get_event_type(input: &Envelope) -> (r: EventKind)
    ensures
        r == kind_of(*input),
{
    let marked = match &input.starred_url {
        Some(s) => s.as_str().unicode_len() > 0,
        None => false,
    };
    if marked && text_is(&input.action, "created") {
        return EventKind::StarCreated;
    }
    if marked && text_is(&input.action, "deleted") {
        return EventKind::StarDeleted;
    }
    EventKind::Unrecognized
}

/// Whether the handler registered for `event_type` runs on `input`: exactly
/// when the event is of that recognised kind.
pub fn register_event_handler(event_type: EventKind, input: &Envelope) -> (r: bool)
    ensures
        r == (event_type != EventKind::Unrecognized && kind_of(*input) == event_type),
{
    match event_type {
        EventKind::Unrecognized => false,
        _ => get_event_type(input) == event_type,
    }
}

/// The steps that the handlers take against the organization.
#[derive(Clone, Copy, Debug, PartialEq, Eq, Structural)]
pub enum HandlerStep {
    /// Nothing done yet.
    Start,
    /// Ask whether the sender is a member of the organization.
    CheckMembership,
    /// Invite the sender to the organization.
    Invite,
    /// Announce the invitation.
    Announce,
    /// Remove the sender from the organization.
    Remove,
    /// Nothing more to do.
    Finished,
}

/// After `done` came back with `ok`, what a star's handler does next: check
/// membership first; invite a non-member, and announce a successful invite.
pub open spec fn star_created_after(done: HandlerStep, ok: bool) -> HandlerStep {
    match done {
        HandlerStep::Start => HandlerStep::CheckMembership,
        HandlerStep::CheckMembership => if ok {
            HandlerStep::Finished
        } else {
            HandlerStep::Invite
        },
        HandlerStep::Invite => if ok {
            HandlerStep::Announce
        } else {
            HandlerStep::Finished
        },
        _ => HandlerStep::Finished,
    }
}

/// After `done` came back with `ok`, what an unstar's handler does next:
/// check membership first, and remove a member.
pub open spec fn star_deleted_after(done: HandlerStep, ok: bool) -> HandlerStep {
    match done {
        HandlerStep::Start => HandlerStep::CheckMembership,
        HandlerStep::CheckMembership => if ok {
            HandlerStep::Remove
        } else {
            HandlerStep::Finished
        },
        _ => HandlerStep::Finished,
    }
}

/// The star handler's next step, given the step just done and whether it
/// succeeded (for the membership check: whether the sender is a member).
pub fn handle_star_created(done: HandlerStep, ok: bool) -> (r: HandlerStep)
    ensures
        r == star_created_after(done, ok),
{
    match done {
        HandlerStep::Start => HandlerStep::CheckMembership,
        HandlerStep::CheckMembership => if ok {
            HandlerStep::Finished
        } else {
            HandlerStep::Invite
        },
        HandlerStep::Invite => if ok {
            HandlerStep::Announce
        } else {
            HandlerStep::Finished
        },
        _ => HandlerStep::Finished,
    }
}

/// The unstar handler's next step, given the step just done and whether it
/// succeeded (for the membership check: whether the sender is a member).
pub fn handle_star_deleted(done: HandlerStep, ok: bool) -> (r: HandlerStep)
    ensures
        r == star_deleted_after(done, ok),
{
    match done {
        HandlerStep::Start => HandlerStep::CheckMembership,
        HandlerStep::CheckMembership => if ok {
            HandlerStep::Remove
        } else {
            HandlerStep::Finished
        },
        _ => HandlerStep::Finished,
    }
}

/// The next step of the handler for `kind`; an unrecognised event has none.
pub fn next_step(kind: EventKind, done: HandlerStep, ok: bool) -> (r: HandlerStep)
    ensures
        r == match kind {
            EventKind::StarCreated => star_created_after(done, ok),
            EventKind::StarDeleted => star_deleted_after(done, ok),
            EventKind::Unrecognized => HandlerStep::Finished,
        },
{
    match kind {
        EventKind::StarCreated => handle_star_created(done, ok),
        EventKind::StarDeleted => handle_star_deleted(done, ok),
        EventKind::Unrecognized => HandlerStep::Finished,
    }
}

/// Each envelope falls in exactly one kind: `created` with a marker is a new
/// star, `deleted` with a marker a removed one, and every other combination is
/// unrecognised, for which no handler runs.
pub proof fn lemma_classifier(e: Envelope, registered: EventKind)
    ensures
        text_or_empty(e.starred_url).len() > 0 && text_or_empty(e.action) == "created"@ ==> kind_of(e)
            == EventKind::StarCreated,
        text_or_empty(e.starred_url).len() > 0 && text_or_empty(e.action) == "deleted"@ ==> kind_of(e)
            == EventKind::StarDeleted,
        !(text_or_empty(e.starred_url).len() > 0 && (text_or_empty(e.action) == "created"@
            || text_or_empty(e.action) == "deleted"@)) ==> kind_of(e) == EventKind::Unrecognized,
        kind_of(e) == EventKind::Unrecognized ==> !(registered != EventKind::Unrecognized && kind_of(e)
            == registered),
{
    reveal_strlit("created");
    reveal_strlit("deleted");
    assert("created"@[0] != "deleted"@[0]);
}

/// Redelivering an event does no harm: each handler checks membership before
/// it acts, invites only someone found not to be a member, and removes only
/// someone found to be one.
pub proof fn lemma_handlers_check_first(done: HandlerStep, ok: bool)
    ensures
        star_created_after(HandlerStep::Start, ok) == HandlerStep::CheckMembership,
        star_deleted_after(HandlerStep::Start, ok) == HandlerStep::CheckMembership,
        star_created_after(done, ok) == HandlerStep::Invite ==> done == HandlerStep::CheckMembership && !ok,
        star_deleted_after(done, ok) == HandlerStep::Remove ==> done == HandlerStep::CheckMembership && ok,
        star_created_after(done, ok) == HandlerStep::Announce ==> done == HandlerStep::Invite && ok,
{
}

} // verus!
