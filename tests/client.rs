use mailgun_rs::{
    get_base_url, send_outcome, Attachment, AttachmentKind, EmailAddress, Encoding, Mailgun,
    MailgunRegion, Message, SendError, SendResponse,
};

fn example_client() -> Mailgun {
    Mailgun::new("k", "example.com").unwrap()
}

fn example_message() -> Message {
    Message::builder()
        .to(vec![EmailAddress::address("a@b.com")])
        .subject("Hi")
        .html("<b>Hi</b>")
        .build()
}

#[test]
fn region_base_urls() {
    assert_eq!(get_base_url(MailgunRegion::US), "https://api.mailgun.net/v3");
    assert_eq!(get_base_url(MailgunRegion::EU), "https://api.eu.mailgun.net/v3");
}

#[test]
fn messages_url_per_region() {
    let client = example_client();
    assert_eq!(client.messages_url(MailgunRegion::US), "https://api.mailgun.net/v3/example.com/messages");
    assert_eq!(client.messages_url(MailgunRegion::EU), "https://api.eu.mailgun.net/v3/example.com/messages");
}

#[test]
fn empty_credentials_are_refused() {
    assert_eq!(Mailgun::new("", "example.com").unwrap_err(), SendError::MissingCredential);
    assert_eq!(Mailgun::new("k", "").unwrap_err(), SendError::MissingCredential);
    let client = example_client();
    assert_eq!(client.api_key, "k");
    assert_eq!(client.domain, "example.com");
}

#[test]
fn request_without_attachments_is_form_encoded() {
    let client = example_client();
    let sender = EmailAddress::name_address("no-reply", "no-reply@example.com");
    let request = client.build_request(MailgunRegion::US, &sender, &example_message(), &vec![]);
    assert_eq!(request.url, "https://api.mailgun.net/v3/example.com/messages");
    assert_eq!(request.username, "api");
    assert_eq!(request.password, "k");
    assert_eq!(request.encoding, Encoding::Form);
    assert!(request.files.is_empty());
    let expected: Vec<(String, String)> = vec![
        ("from".into(), "no-reply <no-reply@example.com>".into()),
        ("to".into(), "a@b.com".into()),
        ("subject".into(), "Hi".into()),
        ("text".into(), "".into()),
        ("html".into(), "<b>Hi</b>".into()),
    ];
    assert_eq!(request.fields, expected);
}

#[test]
fn inline_attachment_makes_multipart_and_cid() {
    let client = example_client();
    let sender = EmailAddress::address("no-reply@example.com");
    let inline = Attachment::from_path("images/sushi.png", AttachmentKind::Inline);
    assert_eq!(inline.file_name(), Some("sushi.png".to_string()));
    assert_eq!(inline.cid(), Some("cid:sushi.png".to_string()));
    let message = Message::builder()
        .to(vec![EmailAddress::address("a@b.com")])
        .subject("Hi")
        .html("<img src=\"cid:sushi.png\">")
        .build();
    let request = client.build_request(MailgunRegion::EU, &sender, &message, &vec![inline]);
    assert_eq!(request.encoding, Encoding::Multipart);
    assert_eq!(request.files.len(), 1);
    assert_eq!(request.files[0].field, "inline");
    assert_eq!(request.files[0].filename, Some("sushi.png".to_string()));
    assert_eq!(request.files[0].attachment, 0);
}

#[test]
fn regular_and_byte_attachments() {
    let regular = Attachment::from_path("/tmp/report.pdf", AttachmentKind::Attachment);
    let bytes = Attachment::from_bytes("notes.txt", vec![1, 2, 3], AttachmentKind::Inline);
    assert_eq!(regular.cid(), None);
    assert_eq!(regular.kind.part_name(), "attachment");
    assert_eq!(bytes.file_name(), Some("notes.txt".to_string()));
    assert_eq!(bytes.cid(), Some("cid:notes.txt".to_string()));
    let parts = mailgun_rs::client::file_parts(&vec![regular, bytes]);
    assert_eq!(parts[0].field, "attachment");
    assert_eq!(parts[0].filename, Some("report.pdf".to_string()));
    assert_eq!(parts[1].field, "inline");
    assert_eq!(parts[1].attachment, 1);
}

#[test]
fn path_without_file_name() {
    let a = Attachment::from_path("/tmp/..", AttachmentKind::Inline);
    assert_eq!(a.file_name(), None);
    assert_eq!(a.cid(), None);
}

#[test]
fn success_yields_response() {
    let resp = SendResponse { message: "Queued".to_string(), id: "abc123".to_string() };
    let body = "{\"message\":\"Queued\",\"id\":\"abc123\"}".to_string();
    assert_eq!(send_outcome(200, body, Some(resp.clone())), Ok(resp));
}

#[test]
fn unauthorized_yields_provider_error() {
    let r = send_outcome(401, "Forbidden".to_string(), None);
    assert_eq!(r, Err(SendError::Provider { status: 401, body: "Forbidden".to_string() }));
}

#[test]
fn undecodable_success_yields_decode_error() {
    let r = send_outcome(200, "oops".to_string(), None);
    assert_eq!(r, Err(SendError::Decode("oops".to_string())));
    let r = send_outcome(500, "down".to_string(), None);
    assert_eq!(r, Err(SendError::Provider { status: 500, body: "down".to_string() }));
}
