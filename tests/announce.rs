use ghb::announce::{
    announcement_posted, boundary_from, comment_fields, create_form_part, get_user_cookie_from_base64,
    invite_note, multipart_announcement, multipart_body, pv_gh_announce_collaborator_multipart,
    pv_gh_announce_collaborator_urlencoded, pv_gh_get_crsf_token, urlencoded_announcement, urlencoded_body,
    FormTokens,
};
use ghb::config::Config;

const PAGE: &str = r#"<html><body><form action="/flashsoft-eu/access-to-private-repos/discussions/1/comments" method="post"><input type="hidden" name="authenticity_token" value="AUTH123" /><input type="text" name="required_field_ab12" hidden="hidden" /><input type="hidden" name="timestamp" value="1700000000000" /><input type="hidden" name="timestamp_secret" value="SECRETX" /></form></body></html>"#;

fn part(boundary: &str, name: &str, value: &str) -> String {
    format!("--{}\r\nContent-Disposition: form-data; name=\"{}\"\r\n\r\n{}\r\n", boundary, name, value)
}

#[test]
fn form_part_layout() {
    assert_eq!(
        create_form_part("XYZ", "comment[body]", "hi"),
        "--XYZ\r\nContent-Disposition: form-data; name=\"comment[body]\"\r\n\r\nhi\r\n"
    );
}

#[test]
fn form_values_are_read_from_the_page() {
    let t = pv_gh_get_crsf_token(PAGE);
    assert_eq!(t.authenticity_token, "AUTH123");
    assert_eq!(t.required_field, "required_field_ab12");
    assert_eq!(t.timestamp, "1700000000000");
    assert_eq!(t.timestamp_secret, "SECRETX");
    assert!(t.complete());
}

#[test]
fn missing_form_values_stay_empty() {
    let t = pv_gh_get_crsf_token("<html>nothing here</html>");
    assert_eq!(t.authenticity_token, "");
    assert_eq!(t.required_field, "");
    assert!(!t.complete());
    assert!(multipart_announcement("o", "u", "<html></html>", "B", "D", "N").is_none());
    assert!(urlencoded_announcement("o", "u", "<html></html>", "D").is_none());
    assert!(pv_gh_announce_collaborator_multipart("o", "u", "").is_none());
}

#[test]
fn bodies_are_assembled_in_order() {
    let fields = vec![("a".to_string(), "1".to_string()), ("b".to_string(), String::new())];
    assert_eq!(multipart_body("B", &fields), format!("{}{}--B--\r\n", part("B", "a", "1"), part("B", "b", "")));
    assert_eq!(multipart_body("B", &Vec::new()), "--B--\r\n");
    assert_eq!(urlencoded_body(&fields), "a=1&b=");
    assert_eq!(urlencoded_body(&Vec::new()), "");
}

#[test]
fn boundary_and_note() {
    assert_eq!(boundary_from(&[0x00, 0x1f, 0xa0, 0xff]), "----WebKitFormBoundary001fa0ff");
    assert_eq!(
        invite_note("octo", "2024-01-02T03:04:05Z"),
        "```\nUser octo has been invited to join the organization.\n\nInvitation issued on 2024-01-02T03:04:05Z.\n"
    );
}

#[test]
fn comment_fields_in_page_order() {
    let t = FormTokens {
        authenticity_token: "A".to_string(),
        required_field: "R".to_string(),
        timestamp: "T".to_string(),
        timestamp_secret: "S".to_string(),
    };
    let names: Vec<String> = comment_fields(&t, "C", false).into_iter().map(|f| f.0).collect();
    assert_eq!(
        names,
        vec![
            "authenticity_token", "R", "timestamp", "timestamp_secret", "saved_reply_id", "comment[body]", "path",
            "line", "start_line", "start_commit_oid", "end_commit_oid", "base_commit_oid", "comment_id"
        ]
    );
    assert_eq!(comment_fields(&t, "C", true).len(), 14);
    assert_eq!(comment_fields(&t, "C", true)[5].0, "saved-reply-filter-field");
}

#[test]
fn multipart_announcement_is_exact() {
    let a = multipart_announcement("flashsoft-eu", "octo", PAGE, "BND", "2024-01-02T03:04:05Z", "n-1").unwrap();
    assert_eq!(a.url, "https://github.com/flashsoft-eu/access-to-private-repos/discussions/1/comments");
    assert_eq!(a.content_type, "multipart/form-data; boundary=BND");
    assert_eq!(a.nonce, "v2:n-1");
    let note = "```\nUser https://github.com/octo has been invited to join the organization.\n\nInvitation issued on 2024-01-02T03:04:05Z.\n";
    let mut expected = String::new();
    for (n, v) in [
        ("authenticity_token", "AUTH123"),
        ("required_field_ab12", ""),
        ("timestamp", "1700000000000"),
        ("timestamp_secret", "SECRETX"),
        ("saved_reply_id", ""),
        ("comment[body]", note),
        ("path", ""),
        ("line", ""),
        ("start_line", ""),
        ("start_commit_oid", ""),
        ("end_commit_oid", ""),
        ("base_commit_oid", ""),
        ("comment_id", ""),
    ] {
        expected.push_str(&part("BND", n, v));
    }
    expected.push_str("--BND--\r\n");
    assert_eq!(a.body, expected);
}

#[test]
fn urlencoded_announcement_encodes_the_note() {
    let a = urlencoded_announcement("flashsoft-eu", "octo", PAGE, "2024-01-02").unwrap();
    assert_eq!(a.content_type, "application/x-www-form-urlencoded");
    assert_eq!(a.nonce, "");
    let note = "%60%60%60%0AUser+octo+has+been+invited+to+join+the+organization.%0A%0AInvitation+issued+on+2024-01-02.%0A";
    assert_eq!(
        a.body,
        format!(
            "authenticity_token=AUTH123&required_field_ab12=&timestamp=1700000000000&timestamp_secret=SECRETX&saved_reply_id=&saved-reply-filter-field=&comment[body]={}&path=&line=&start_line=&start_commit_oid=&end_commit_oid=&base_commit_oid=&comment_id=",
            note
        )
    );
}

#[test]
fn announcements_with_random_parts() {
    let a = pv_gh_announce_collaborator_multipart("flashsoft-eu", "octo", PAGE).unwrap();
    assert!(a.content_type.starts_with("multipart/form-data; boundary=----WebKitFormBoundary"));
    assert_eq!(a.content_type.len(), "multipart/form-data; boundary=----WebKitFormBoundary".len() + 8);
    assert!(a.nonce.starts_with("v2:"));
    assert_eq!(a.nonce.len(), 39);
    assert!(a.body.contains("User https://github.com/octo has been invited"));
    let u = pv_gh_announce_collaborator_urlencoded("flashsoft-eu", "octo", PAGE).unwrap();
    assert!(u.body.starts_with("authenticity_token=AUTH123&"));
}

#[test]
fn cookie_is_decoded() {
    let mut c = Config {
        github_app_id: String::new(),
        github_app_pk_base64: String::new(),
        github_webhook_secret: String::new(),
        bot_cookie_base64: "dXNlcl9zZXNzaW9uPWFiYw==".to_string(),
        loggin_enabled: false,
    };
    assert_eq!(get_user_cookie_from_base64(&c).as_deref(), Some("user_session=abc"));
    c.bot_cookie_base64 = "%%%".to_string();
    assert_eq!(get_user_cookie_from_base64(&c), None);
    c.bot_cookie_base64 = "/w==".to_string();
    assert_eq!(get_user_cookie_from_base64(&c), None);
}

#[test]
fn post_statuses() {
    assert!(announcement_posted(200));
    assert!(announcement_posted(201));
    assert!(!announcement_posted(302));
    assert!(!announcement_posted(422));
}
