//! The GitHub REST calls that the handlers make: where each one goes, what it
//! sends, and which answers count as success.

use vstd::prelude::*;
use crate::text::{decimal, push_decimal};
use crate::token::GITHUB_API_BASE;

verus! {

/// The membership resource of `user` in `org`.
pub open spec fn member_url_of(org: Seq<char>, user: Seq<char>) -> Seq<char> {
    GITHUB_API_BASE@ + "/orgs/"@ + org + "/members/"@ + user
}

/// The invitation collection of `org`.
pub open spec fn invitations_url_of(org: Seq<char>) -> Seq<char> {
    GITHUB_API_BASE@ + "/orgs/"@ + org + "/invitations"@
}

/// The collaborator resource of `user` on `org/repo`.
pub open spec fn collaborator_url_of(org: Seq<char>, repo: Seq<char>, user: Seq<char>) -> Seq<char> {
    GITHUB_API_BASE@ + "/repos/"@ + org + "/"@ + repo + "/collaborators/"@ + user
}

/// The body of an organization invitation for the user with id `invitee`.
pub open spec fn invitation_body_of(invitee: int) -> Seq<char> {
    "{\"invitee_id\":"@ + decimal(invitee) + "}"@
}

/// Where membership of `user` in `org` is checked (GET) or ended (DELETE).
pub fn member_url(org: &str, user: &str) -> (r: String)
    ensures
        r@ == member_url_of(org@, user@),
{
    let mut s = String::from_str(GITHUB_API_BASE);
    s.append("/orgs/");
    s.append(org);
    s.append("/members/");
    s.append(user);
    assert(s@ =~= member_url_of(org@, user@));
    s
}

/// Where invitations to `org` are sent (POST).
pub fn invitations_url(org: &str) -> (r: String)
    ensures
        r@ == invitations_url_of(org@),
{
    let mut s = String::from_str(GITHUB_API_BASE);
    s.append("/orgs/");
    s.append(org);
    s.append("/invitations");
    assert(s@ =~= invitations_url_of(org@));
    s
}

/// Where `user` is checked (GET), added (PUT) or removed (DELETE) as a
/// collaborator of `org/repo`.
pub fn collaborator_url(org: &str, repo: &str, user: &str) -> (r: String)
    ensures
        r@ == collaborator_url_of(org@, repo@, user@),
{
    let mut s = String::from_str(GITHUB_API_BASE);
    s.append("/repos/");
    s.append(org);
    s.append("/");
    s.append(repo);
    s.append("/collaborators/");
    s.append(user);
    assert(s@ =~= collaborator_url_of(org@, repo@, user@));
    s
}

/// The JSON body that invites the user with id `invitee_id`.
pub fn invitation_body(invitee_id: i64) -> (r: String)
    ensures
        r@ == invitation_body_of(invitee_id as int),
{
    let mut s = String::from_str("{\"invitee_id\":");
    push_decimal(&mut s, invitee_id);
    s.append("}");
    assert(s@ =~= invitation_body_of(invitee_id as int));
    s
}

/// The JSON body that grants a new collaborator read access.
pub fn collaborator_invite_body() -> (r: &'static str)
    ensures
        r@ == "{\"permission\":\"pull\"}"@,
{
    "{\"permission\":\"pull\"}"
}

/// A membership or collaborator check: `204 No Content` means yes.
pub fn membership_confirmed(status: i32) -> (r: bool)
    ensures
        r == (status == 204),
{
    status == 204
}

/// An invitation went through: `201 Created` or `204 No Content`.
pub fn invitation_accepted(status: i32) -> (r: bool)
    ensures
        r == (status == 201 || status == 204),
{
    status == 201 || status == 204
}

/// A removal went through: `204 No Content`.
pub fn removal_done(status: i32) -> (r: bool)
    ensures
        r == (status == 204),
{
    status == 204
}

} // verus!
