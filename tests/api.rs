use ghb::api::{
    collaborator_invite_body, collaborator_url, invitation_accepted, invitation_body, invitations_url,
    member_url, membership_confirmed, removal_done,
};

#[test]
fn endpoints() {
    assert_eq!(member_url("flashsoft-eu", "octocat"), "https://api.github.com/orgs/flashsoft-eu/members/octocat");
    assert_eq!(invitations_url("flashsoft-eu"), "https://api.github.com/orgs/flashsoft-eu/invitations");
    assert_eq!(
        collaborator_url("flashsoft-eu", "access-to-private-repos", "octocat"),
        "https://api.github.com/repos/flashsoft-eu/access-to-private-repos/collaborators/octocat"
    );
}

#[test]
fn bodies() {
    assert_eq!(invitation_body(583231), r#"{"invitee_id":583231}"#);
    assert_eq!(invitation_body(-1), r#"{"invitee_id":-1}"#);
    assert_eq!(invitation_body(i64::MIN), r#"{"invitee_id":-9223372036854775808}"#);
    assert_eq!(collaborator_invite_body(), r#"{"permission":"pull"}"#);
}

#[test]
fn statuses() {
    assert!(membership_confirmed(204));
    assert!(!membership_confirmed(404));
    assert!(!membership_confirmed(302));
    assert!(invitation_accepted(201));
    assert!(invitation_accepted(204));
    assert!(!invitation_accepted(200));
    assert!(!invitation_accepted(422));
    assert!(removal_done(204));
    assert!(!removal_done(403));
}
