//! The webhook decision: authenticate the raw body, check it is a JSON event,
//! apply the allow-list gate and classify the event for dispatch.

use vstd::prelude::*;
use vstd::slice::slice_to_vec;
use crate::event::{envelope_read, get_event_type, kind_of, text_or_empty, Envelope, EventKind};
use crate::gate::{check_repo_and_org_allowed, org_of, repo_of, AllowList};
use crate::json::{is_json_null, json_is_null, json_parses, json_str_at, parses_as_json};
use crate::signature::{accepts, verify_signature};

verus! {

/// How a webhook delivery is answered.
pub enum HookOutcome {
    /// The signature header does not match the body.
    InvalidSignature,
    /// The body is not JSON.
    InvalidJson,
    /// The body is JSON `null`.
    NullBody,
    /// The repository or its organization is not on the allow-list.
    NotAllowed,
    /// Accepted; the event, of the given kind, goes to its handler.
    Accepted(EventKind, Envelope),
}

/// The answer's HTTP status for an outcome.
pub open spec fn status_of(o: HookOutcome) -> u16 {
    match o {
        HookOutcome::Accepted(..) => 200,
        _ => 400,
    }
}

/// The answer for a delivery whose signature check gave `signature_ok`, whose
/// body parsed as JSON (`parsed`) to a document that is `null` or not, and
/// whose fields are `envelope`: checks in that order, the first failure wins.
pub open spec fn outcome_for(
    signature_ok: bool,
    parsed: bool,
    null: bool,
    envelope: Envelope,
    gate: AllowList,
) -> HookOutcome {
    if !signature_ok {
        HookOutcome::InvalidSignature
    } else if !parsed {
        HookOutcome::InvalidJson
    } else if null {
        HookOutcome::NullBody
    } else if !gate.admits(
        org_of(text_or_empty(envelope.full_name)),
        repo_of(text_or_empty(envelope.full_name)),
    ) {
        HookOutcome::NotAllowed
    } else {
        HookOutcome::Accepted(kind_of(envelope), envelope)
    }
}

impl HookOutcome {
    /// The HTTP status of the answer: 200 when accepted, 400 otherwise.
    pub fn status(&self) -> (r: u16)
        ensures
            r == status_of(*self),
    {
        match self {
            HookOutcome::Accepted(..) => 200,
            _ => 400,
        }
    }

    /// The `status` field of the JSON answer.
    pub fn status_word(&self) -> (r: &'static str)
        ensures
            r@ == (if status_of(*self) == 200 {
                "ok"@
            } else {
                "error"@
            }),
    {
        match self {
            HookOutcome::Accepted(..) => "ok",
            _ => "error",
        }
    }

    /// The `message` field of the JSON answer.
    pub fn message(&self) -> (r: &'static str)
        ensures
            r@ == match *self {
                HookOutcome::InvalidSignature => "Invalid hmac signature, check webhook secret"@,
                HookOutcome::InvalidJson => "Invalid JSON body"@,
                HookOutcome::NullBody => "No body provided or body is null"@,
                HookOutcome::NotAllowed => "Not allowed repo / org"@,
                HookOutcome::Accepted(..) => "Webhook processed"@,
            },
    {
        match self {
            HookOutcome::InvalidSignature => "Invalid hmac signature, check webhook secret",
            HookOutcome::InvalidJson => "Invalid JSON body",
            HookOutcome::NullBody => "No body provided or body is null",
            HookOutcome::NotAllowed => "Not allowed repo / org",
            HookOutcome::Accepted(..) => "Webhook processed",
        }
    }
}

/// The decision once the checks' results are known.
pub fn decide_hook(signature_ok: bool, parsed: bool, null: bool, envelope: Envelope, gate: &AllowList) -> (r:
    HookOutcome)
    ensures
        r == outcome_for(signature_ok, parsed, null, envelope, *gate),
{
    if !signature_ok {
        return HookOutcome::InvalidSignature;
    }
    if !parsed {
        return HookOutcome::InvalidJson;
    }
    if null {
        return HookOutcome::NullBody;
    }
    let allowed = match &envelope.full_name {
        Some(f) => check_repo_and_org_allowed(gate, f.as_str()),
        None => check_repo_and_org_allowed(gate, ""),
    };
    proof {
        reveal_strlit("");
    }
    if !allowed {
        return HookOutcome::NotAllowed;
    }
    let kind = get_event_type(&envelope);
    HookOutcome::Accepted(kind, envelope)
}

/// The `repository.full_name` of a webhook body, empty when it has none.
pub open spec fn full_name_in(b: Seq<u8>) -> Seq<char> {
    match json_str_at(b, "/repository/full_name"@) {
        Some(s) => s,
        None => Seq::empty(),
    }
}

/// Whether the allow-list admits the repository that the body names.
pub open spec fn body_admitted(b: Seq<u8>, gate: AllowList) -> bool {
    gate.admits(org_of(full_name_in(b)), repo_of(full_name_in(b)))
}

/// Answers a webhook delivery: the raw `body` bytes, the declared
/// `signature` header (empty when missing) and the shared `secret`. The
/// signature is checked first, then that the body is JSON and not `null`,
/// then the allow-list; a delivery that passes all is accepted with the kind
/// of the event it carries.
pub fn handle_hook(body: &[u8], signature: &str, secret: &str, gate: &AllowList) -> (r: HookOutcome)
    ensures
        !accepts(body@, signature@, secret@) <==> r is InvalidSignature,
        accepts(body@, signature@, secret@) && !json_parses(body@) ==> r is InvalidJson,
        accepts(body@, signature@, secret@) && json_parses(body@) && json_is_null(body@) ==> r is NullBody,
        accepts(body@, signature@, secret@) && json_parses(body@) && !json_is_null(body@) && !body_admitted(
            body@,
            *gate,
        ) ==> r is NotAllowed,
        accepts(body@, signature@, secret@) && json_parses(body@) && !json_is_null(body@) && body_admitted(
            body@,
            *gate,
        ) ==> r is Accepted,
        r matches HookOutcome::Accepted(k, e) ==> envelope_read(body@, e) && k == kind_of(e),
        status_of(r) == 200 <==> accepts(body@, signature@, secret@) && json_parses(body@) && !json_is_null(
            body@,
        ) && body_admitted(body@, *gate),
{
    let payload = slice_to_vec(body);
    if !verify_signature(payload, signature, secret) {
        return HookOutcome::InvalidSignature;
    }
    let parsed = parses_as_json(body);
    let null = is_json_null(body);
    let envelope = Envelope::from_json(body);
    proof {
        assert(text_or_empty(envelope.full_name) == full_name_in(body@));
    }
    decide_hook(true, parsed, null, envelope, gate)
}

/// A delivery with a wrong signature is refused with status 400 before
/// anything else is looked at: no handler runs and no token is needed.
pub proof fn lemma_bad_signature_refused(parsed: bool, null: bool, envelope: Envelope, gate: AllowList)
    ensures
        outcome_for(false, parsed, null, envelope, gate) is InvalidSignature,
        status_of(outcome_for(false, parsed, null, envelope, gate)) == 400,
{
}

} // verus!
