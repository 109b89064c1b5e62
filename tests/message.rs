use mailgun_rs::{join_addresses, EmailAddress, Message};
use std::collections::BTreeMap;

fn field<'a>(params: &'a [(String, String)], name: &str) -> Option<&'a str> {
    params.iter().find(|(k, _)| k == name).map(|(_, v)| v.as_str())
}

#[test]
fn typed_builder_should_work() {
    let message = Message::builder()
        .to(vec![EmailAddress::address("example@example.com")])
        .cc(vec![EmailAddress::name_address("Eren", "eren@redmc.me")])
        .text("")
        .html("<h1>Hello</h1>")
        .subject("Hello")
        .template("template")
        .template_vars([("name".into(), "value".into())].iter().cloned().collect())
        .build();
    assert_eq!(
        message,
        Message {
            to: vec![EmailAddress {
                name: None,
                address: "example@example.com".to_string()
            }],
            cc: vec![EmailAddress {
                name: Some("Eren".to_string()),
                address: "eren@redmc.me".to_string()
            }],
            bcc: vec![],
            subject: "Hello".to_string(),
            text: "".to_string(),
            html: "<h1>Hello</h1>".to_string(),
            template: "template".to_string(),
            template_vars: [("name".into(), "value".into())].iter().cloned().collect(),
            template_json: None,
        }
    );
}

#[test]
fn render_with_and_without_name() {
    assert_eq!(EmailAddress::name_address("A", "a@b.com").render(), "A <a@b.com>");
    assert_eq!(EmailAddress::address("a@b.com").render(), "a@b.com");
}

#[test]
fn recipients_joined_in_order() {
    let message = Message::builder()
        .to(vec![
            EmailAddress::name_address("A", "a@b.com"),
            EmailAddress::address("c@d.com"),
            EmailAddress::address("e@f.com"),
        ])
        .subject("Hi")
        .build();
    let params = message.params();
    assert_eq!(field(&params, "to"), Some("A <a@b.com>,c@d.com,e@f.com"));
    assert_eq!(field(&params, "cc"), None);
    assert_eq!(field(&params, "bcc"), None);
    assert_eq!(field(&params, "subject"), Some("Hi"));
    assert_eq!(field(&params, "text"), Some(""));
    assert_eq!(field(&params, "html"), Some(""));
}

#[test]
fn fields_in_order() {
    let message = Message::builder()
        .to(vec![EmailAddress::address("a@b.com")])
        .bcc(vec![EmailAddress::address("x@y.com")])
        .subject("S")
        .text("T")
        .html("H")
        .build();
    let names: Vec<String> = message.params().into_iter().map(|(k, _)| k).collect();
    assert_eq!(names, vec!["to", "bcc", "subject", "text", "html"]);
}

#[test]
fn join_of_no_addresses_is_empty() {
    assert_eq!(join_addresses(&vec![]), "");
    assert_eq!(join_addresses(&vec![EmailAddress::address("a@b.com")]), "a@b.com");
}

#[test]
fn no_template_means_no_template_fields() {
    let mut vars = BTreeMap::new();
    vars.insert("name".to_string(), "Dongri".to_string());
    let message = Message::builder()
        .to(vec![EmailAddress::address("a@b.com")])
        .subject("Hi")
        .template_vars(vars)
        .build();
    let params = message.params();
    assert_eq!(field(&params, "template"), None);
    assert_eq!(field(&params, "h:X-Mailgun-Variables"), None);
}

#[test]
fn template_vars_become_json_header() {
    let mut vars = BTreeMap::new();
    vars.insert("name".to_string(), "Dongri".to_string());
    let message = Message::builder()
        .to(vec![EmailAddress::address("a@b.com")])
        .subject("Hi")
        .template("t1")
        .template_vars(vars)
        .build();
    let params = message.params();
    assert_eq!(field(&params, "template"), Some("t1"));
    assert_eq!(field(&params, "h:X-Mailgun-Variables"), Some("{\"name\":\"Dongri\"}"));
}

#[test]
fn empty_template_vars_serialise_to_empty_object() {
    let message = Message::builder().subject("Hi").template("t1").build();
    let params = message.params();
    assert_eq!(field(&params, "h:X-Mailgun-Variables"), Some("{}"));
}

#[test]
fn template_json_takes_precedence() {
    let mut vars = BTreeMap::new();
    vars.insert("name".to_string(), "Dongri".to_string());
    let mut obj = serde_json::Map::new();
    obj.insert("k".to_string(), serde_json::Value::String("v".to_string()));
    let message = Message::builder()
        .to(vec![EmailAddress::address("a@b.com")])
        .subject("Hi")
        .template("t1")
        .template_vars(vars)
        .template_json(serde_json::Value::Object(obj))
        .build();
    let params = message.params();
    assert_eq!(field(&params, "h:X-Mailgun-Variables"), Some("{\"k\":\"v\"}"));
    assert_eq!(params.iter().filter(|(k, _)| k == "h:X-Mailgun-Variables").count(), 1);
}

#[test]
fn params_leave_message_reusable() {
    let message = Message::builder()
        .to(vec![EmailAddress::address("a@b.com")])
        .subject("Hi")
        .build();
    let first = message.params();
    let second = message.params();
    assert_eq!(first, second);
}
