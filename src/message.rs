use vstd::prelude::*;
use vstd::string::StringExecFns;
use std::collections::BTreeMap;
use crate::address::EmailAddress;

verus! {

#[verifier::external_type_specification]
#[verifier::external_body]
pub struct ExJsonValue(serde_json::Value);

/// The compact JSON text of a structured value.
pub uninterp spec fn value_json(v: serde_json::Value) -> Seq<char>;

/// The JSON object text of a string-to-string mapping.
pub uninterp spec fn vars_json(m: Map<Seq<char>, Seq<char>>) -> Seq<char>;

/// Relies on serde_json's `Display` for `Value`: it writes the compact JSON text,
/// which depends on the value alone.
#[verifier::external_body]
fn json_value_text(v: &serde_json::Value) -> (r: String)
    ensures
        r@ == value_json(*v),
{
    v.to_string()
}

/// Relies on serde_json::to_string: a map with string keys and string values is
/// written as one JSON object, in key order, and its serialisation never fails.
#[verifier::external_body]
fn json_vars_text(vars: &BTreeMap<String, String>) -> (r: String)
    ensures
        r@ == vars_json(vars.deep_view()),
{
    serde_json::to_string(vars).unwrap_or_default()
}

/// A message: recipients, subject, bodies and an optional provider-side template.
///
/// When `template` is non-empty its variables come from `template_json` if that
/// is set, and from `template_vars` otherwise.
#[derive(Debug, PartialEq, Eq, Clone, Default)]
pub struct Message {
    pub to: Vec<EmailAddress>,
    pub cc: Vec<EmailAddress>,
    pub bcc: Vec<EmailAddress>,
    pub subject: String,
    pub text: String,
    pub html: String,
    pub template: String,
    pub template_vars: BTreeMap<String, String>,
    pub template_json: Option<serde_json::Value>,
}

/// A list of form fields as plain sequences.
pub open spec fn fields_view(v: Seq<(String, String)>) -> Seq<(Seq<char>, Seq<char>)> {
    v.map_values(|p: (String, String)| (p.0@, p.1@))
}

/// The rendered mailboxes of `addrs`, in order, separated by commas.
pub open spec fn joined(addrs: Seq<EmailAddress>) -> Seq<char>
    decreases addrs.len(),
{
    if addrs.len() == 0 {
        Seq::empty()
    } else if addrs.len() == 1 {
        addrs[0].render_spec()
    } else {
        joined(addrs.drop_last()) + ","@ + addrs.last().render_spec()
    }
}

/// The field for a recipient list: absent when the list is empty.
pub open spec fn recipient_fields(field: Seq<char>, addrs: Seq<EmailAddress>) -> Seq<(Seq<char>, Seq<char>)> {
    if addrs.len() == 0 {
        Seq::empty()
    } else {
        seq![(field, joined(addrs))]
    }
}

impl Message {
    /// The text of the template variables that is sent.
    pub open spec fn variables_text(&self) -> Seq<char> {
        match self.template_json {
            Some(v) => value_json(v),
            None => vars_json(self.template_vars.deep_view()),
        }
    }

    /// The template fields: present only when a template is named.
    pub open spec fn template_fields(&self) -> Seq<(Seq<char>, Seq<char>)> {
        if self.template@.len() == 0 {
            Seq::empty()
        } else {
            seq![("template"@, self.template@), ("h:X-Mailgun-Variables"@, self.variables_text())]
        }
    }

    /// The form fields that encode this message, in order.
    pub open spec fn params_spec(&self) -> Seq<(Seq<char>, Seq<char>)> {
        recipient_fields("to"@, self.to@)
            + recipient_fields("cc"@, self.cc@)
            + recipient_fields("bcc"@, self.bcc@)
            + seq![("subject"@, self.subject@), ("text"@, self.text@), ("html"@, self.html@)]
            + self.template_fields()
    }

    /// Encodes the message as form fields, in order: each non-empty recipient
    /// list, then `subject`, `text` and `html` (sent even when empty), then the
    /// template fields. The message is only borrowed, so it can be sent again.
    pub fn params(&self) -> (r: Vec<(String, String)>)
        ensures
            fields_view(r@) == self.params_spec(),
    {
        let mut params: Vec<(String, String)> = Vec::new();
        Message::add_recipients("to", &self.to, &mut params);
        Message::add_recipients("cc", &self.cc, &mut params);
        Message::add_recipients("bcc", &self.bcc, &mut params);
        params.push((String::from_str("subject"), self.subject.clone()));
        params.push((String::from_str("text"), self.text.clone()));
        params.push((String::from_str("html"), self.html.clone()));
        if !self.template.as_str().is_empty() {
            params.push((String::from_str("template"), self.template.clone()));
            let vars = match &self.template_json {
                Some(v) => json_value_text(v),
                None => json_vars_text(&self.template_vars),
            };
            params.push((String::from_str("h:X-Mailgun-Variables"), vars));
        }
        assert(fields_view(params@) =~= self.params_spec());
        params
    }

    /// Appends the field for a recipient list, unless the list is empty.
    pub fn add_recipients(field: &str, addresses: &Vec<EmailAddress>, params: &mut Vec<(String, String)>)
        ensures
            fields_view(final(params)@) == fields_view(old(params)@) + recipient_fields(field@, addresses@),
    {
        if addresses.len() != 0 {
            let joined = join_addresses(addresses);
            params.push((String::from_str(field), joined));
        }
        assert(fields_view(final(params)@) =~= fields_view(old(params)@) + recipient_fields(field@, addresses@));
    }
}

/// Builds a `Message` field by field, starting from empty values.
pub struct MessageBuilder {
    message: Message,
}

impl MessageBuilder {
    /// The message built so far.
    pub closed spec fn spec_message(&self) -> Message {
        self.message
    }

    /// Sets the `to` recipients.
    pub fn to(self, to: Vec<EmailAddress>) -> (r: Self)
        ensures
            r.spec_message() == (Message { to, ..self.spec_message() }),
    {
        MessageBuilder { message: Message { to, ..self.message } }
    }

    /// Sets the `cc` recipients.
    pub fn cc(self, cc: Vec<EmailAddress>) -> (r: Self)
        ensures
            r.spec_message() == (Message { cc, ..self.spec_message() }),
    {
        MessageBuilder { message: Message { cc, ..self.message } }
    }

    /// Sets the `bcc` recipients.
    pub fn bcc(self, bcc: Vec<EmailAddress>) -> (r: Self)
        ensures
            r.spec_message() == (Message { bcc, ..self.spec_message() }),
    {
        MessageBuilder { message: Message { bcc, ..self.message } }
    }

    /// Sets the subject.
    pub fn subject(self, subject: &str) -> (r: Self)
        ensures
            r.spec_message().subject@ == subject@,
            r.spec_message() == (Message { subject: r.spec_message().subject, ..self.spec_message() }),
    {
        MessageBuilder { message: Message { subject: String::from_str(subject), ..self.message } }
    }

    /// Sets the plain-text body.
    pub fn text(self, text: &str) -> (r: Self)
        ensures
            r.spec_message().text@ == text@,
            r.spec_message() == (Message { text: r.spec_message().text, ..self.spec_message() }),
    {
        MessageBuilder { message: Message { text: String::from_str(text), ..self.message } }
    }

    /// Sets the HTML body.
    pub fn html(self, html: &str) -> (r: Self)
        ensures
            r.spec_message().html@ == html@,
            r.spec_message() == (Message { html: r.spec_message().html, ..self.spec_message() }),
    {
        MessageBuilder { message: Message { html: String::from_str(html), ..self.message } }
    }

    /// Names the provider-side template.
    pub fn template(self, template: &str) -> (r: Self)
        ensures
            r.spec_message().template@ == template@,
            r.spec_message() == (Message { template: r.spec_message().template, ..self.spec_message() }),
    {
        MessageBuilder { message: Message { template: String::from_str(template), ..self.message } }
    }

    /// Sets the template variables.
    pub fn template_vars(self, template_vars: BTreeMap<String, String>) -> (r: Self)
        ensures
            r.spec_message() == (Message { template_vars, ..self.spec_message() }),
    {
        MessageBuilder { message: Message { template_vars, ..self.message } }
    }

    /// Sets the structured template variables, which take precedence over the map.
    pub fn template_json(self, template_json: serde_json::Value) -> (r: Self)
        ensures
            r.spec_message() == (Message { template_json: Some(template_json), ..self.spec_message() }),
    {
        MessageBuilder { message: Message { template_json: Some(template_json), ..self.message } }
    }

    /// The message built.
    pub fn build(self) -> (r: Message)
        ensures
            r == self.spec_message(),
    {
        self.message
    }
}

impl Message {
    /// A builder whose fields start empty: no recipients, empty texts, no
    /// template, no variables.
    pub fn builder() -> (r: MessageBuilder)
        ensures
            r.spec_message().to@.len() == 0,
            r.spec_message().cc@.len() == 0,
            r.spec_message().bcc@.len() == 0,
            r.spec_message().subject@.len() == 0,
            r.spec_message().text@.len() == 0,
            r.spec_message().html@.len() == 0,
            r.spec_message().template@.len() == 0,
            r.spec_message().template_vars@ == Map::<String, String>::empty(),
            r.spec_message().template_json is None,
    {
        MessageBuilder {
            message: Message {
                to: Vec::new(),
                cc: Vec::new(),
                bcc: Vec::new(),
                subject: String::new(),
                text: String::new(),
                html: String::new(),
                template: String::new(),
                template_vars: BTreeMap::new(),
                template_json: None,
            },
        }
    }
}

/// No field of `fs` is named `name`.
pub open spec fn lacks_field(fs: Seq<(Seq<char>, Seq<char>)>, name: Seq<char>) -> bool {
    forall|i: int| 0 <= i < fs.len() ==> #[trigger] fs[i].0 != name
}

/// `fs` holds a field `name` with value `value`, and every field so named has that value.
pub open spec fn field_is(fs: Seq<(Seq<char>, Seq<char>)>, name: Seq<char>, value: Seq<char>) -> bool {
    &&& exists|i: int| 0 <= i < fs.len() && #[trigger] fs[i] == (name, value)
    &&& forall|i: int| 0 <= i < fs.len() && #[trigger] fs[i].0 == name ==> fs[i].1 == value
}

proof fn lemma_names_distinct()
    ensures
        "to"@ != "cc"@, "to"@ != "bcc"@, "cc"@ != "bcc"@,
        "to"@ != "subject"@, "to"@ != "text"@, "to"@ != "html"@, "to"@ != "template"@,
        "to"@ != "h:X-Mailgun-Variables"@,
        "cc"@ != "subject"@, "cc"@ != "text"@, "cc"@ != "html"@, "cc"@ != "template"@,
        "cc"@ != "h:X-Mailgun-Variables"@,
        "bcc"@ != "subject"@, "bcc"@ != "text"@, "bcc"@ != "html"@, "bcc"@ != "template"@,
        "bcc"@ != "h:X-Mailgun-Variables"@,
        "template"@ != "subject"@, "template"@ != "text"@, "template"@ != "html"@,
        "template"@ != "h:X-Mailgun-Variables"@,
        "h:X-Mailgun-Variables"@ != "subject"@, "h:X-Mailgun-Variables"@ != "text"@,
        "h:X-Mailgun-Variables"@ != "html"@,
{
    reveal_strlit("to");
    reveal_strlit("cc");
    reveal_strlit("bcc");
    reveal_strlit("subject");
    reveal_strlit("text");
    reveal_strlit("html");
    reveal_strlit("template");
    reveal_strlit("h:X-Mailgun-Variables");
    assert("to"@[0] != "cc"@[0]);
    assert("to"@.len() != "bcc"@.len());
    assert("cc"@.len() != "bcc"@.len());
    assert("to"@.len() != "subject"@.len());
    assert("to"@.len() != "text"@.len());
    assert("to"@.len() != "html"@.len());
    assert("to"@.len() != "template"@.len());
    assert("to"@.len() != "h:X-Mailgun-Variables"@.len());
    assert("cc"@.len() != "subject"@.len());
    assert("cc"@.len() != "text"@.len());
    assert("cc"@.len() != "html"@.len());
    assert("cc"@.len() != "template"@.len());
    assert("cc"@.len() != "h:X-Mailgun-Variables"@.len());
    assert("bcc"@.len() != "subject"@.len());
    assert("bcc"@.len() != "text"@.len());
    assert("bcc"@.len() != "html"@.len());
    assert("bcc"@.len() != "template"@.len());
    assert("bcc"@.len() != "h:X-Mailgun-Variables"@.len());
    assert("template"@.len() != "subject"@.len());
    assert("template"@.len() != "text"@.len());
    assert("template"@.len() != "html"@.len());
    assert("template"@.len() != "h:X-Mailgun-Variables"@.len());
    assert("h:X-Mailgun-Variables"@.len() != "subject"@.len());
    assert("h:X-Mailgun-Variables"@.len() != "text"@.len());
    assert("h:X-Mailgun-Variables"@.len() != "html"@.len());
}

/// Each recipient list is sent as one field holding its rendered mailboxes,
/// comma-separated in their original order; an empty list sends no field at all.
pub proof fn lemma_recipient_fields(m: Message)
    ensures
        m.to@.len() > 0 ==> field_is(m.params_spec(), "to"@, joined(m.to@)),
        m.to@.len() == 0 ==> lacks_field(m.params_spec(), "to"@),
        m.cc@.len() > 0 ==> field_is(m.params_spec(), "cc"@, joined(m.cc@)),
        m.cc@.len() == 0 ==> lacks_field(m.params_spec(), "cc"@),
        m.bcc@.len() > 0 ==> field_is(m.params_spec(), "bcc"@, joined(m.bcc@)),
        m.bcc@.len() == 0 ==> lacks_field(m.params_spec(), "bcc"@),
{
    lemma_names_distinct();
    let fs = m.params_spec();
    let a = recipient_fields("to"@, m.to@);
    let b = recipient_fields("cc"@, m.cc@);
    let c = recipient_fields("bcc"@, m.bcc@);
    if m.to@.len() > 0 {
        assert(fs[0] == ("to"@, joined(m.to@)));
    }
    if m.cc@.len() > 0 {
        assert(fs[a.len() as int] == ("cc"@, joined(m.cc@)));
    }
    if m.bcc@.len() > 0 {
        assert(fs[(a.len() + b.len()) as int] == ("bcc"@, joined(m.bcc@)));
    }
}

/// With no template named, neither the template field nor the variables header is
/// sent, whatever variables the message holds.
pub proof fn lemma_no_template_no_fields(m: Message)
    requires
        m.template@.len() == 0,
    ensures
        lacks_field(m.params_spec(), "template"@),
        lacks_field(m.params_spec(), "h:X-Mailgun-Variables"@),
{
    lemma_names_distinct();
}

/// With a template named, the template field is sent, and the variables header
/// carries the structured value where one is set, and the variable map otherwise.
pub proof fn lemma_template_fields(m: Message)
    requires
        m.template@.len() > 0,
    ensures
        field_is(m.params_spec(), "template"@, m.template@),
        m.template_json is Some ==> field_is(
            m.params_spec(),
            "h:X-Mailgun-Variables"@,
            value_json(m.template_json->0),
        ),
        m.template_json is None ==> field_is(
            m.params_spec(),
            "h:X-Mailgun-Variables"@,
            vars_json(m.template_vars.deep_view()),
        ),
{
    lemma_names_distinct();
    let fs = m.params_spec();
    assert(fs[fs.len() - 2] == ("template"@, m.template@));
    assert(fs[fs.len() - 1] == ("h:X-Mailgun-Variables"@, m.variables_text()));
}

/// Joins the rendered mailboxes with commas, in order.
pub fn join_addresses(addresses: &Vec<EmailAddress>) -> (r: String)
    ensures
        r@ == joined(addresses@),
{
    if addresses.len() == 0 {
        return String::new();
    }
    let mut s = addresses[0].render();
    assert(addresses@.subrange(0, 1).drop_last() =~= Seq::<EmailAddress>::empty());
    let mut i: usize = 1;
    while i < addresses.len()
        invariant
            1 <= i <= addresses.len(),
            s@ == joined(addresses@.subrange(0, i as int)),
        decreases addresses.len() - i,
    {
        let part = addresses[i].render();
        s.append(",");
        s.append(part.as_str());
        assert(addresses@.subrange(0, i + 1).drop_last() =~= addresses@.subrange(0, i as int));
        i = i + 1;
    }
    assert(addresses@.subrange(0, addresses.len() as int) =~= addresses@);
    s
}

} // verus!
