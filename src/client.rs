use vstd::prelude::*;
use vstd::string::StringExecFns;
use crate::address::EmailAddress;
use crate::attachment::{opt_view, part_name_of, Attachment, AttachmentKind};
use crate::message::{fields_view, Message};
use crate::region::{base_url_of, get_base_url, MailgunRegion};

verus! {

/// Credentials for one sending domain. Read-only once built.
#[derive(Debug, Default)]
pub struct Mailgun {
    pub api_key: String,
    pub domain: String,
}

/// The provider's answer to an accepted message.
#[derive(Debug, PartialEq, Eq, Clone)]
pub struct SendResponse {
    pub message: String,
    pub id: String,
}

/// Why a send did not succeed.
#[derive(Debug, PartialEq, Eq, Clone)]
pub enum SendError {
    /// The API key or the domain was empty when the client was built.
    MissingCredential,
    /// The request could not be sent or its answer not read.
    Transport(String),
    /// The provider answered with a status outside 2xx.
    Provider { status: u16, body: String },
    /// The provider answered 2xx with a body of an unexpected shape.
    Decode(String),
}

/// How the request body is encoded.
#[derive(Debug, PartialEq, Eq, Clone, Copy)]
pub enum Encoding {
    /// `application/x-www-form-urlencoded`
    Form,
    /// `multipart/form-data`
    Multipart,
}

/// A file part of a multipart request.
#[derive(Debug, PartialEq, Eq, Clone)]
pub struct FilePart {
    /// `attachment` or `inline`.
    pub field: String,
    /// The file name sent with the part.
    pub filename: Option<String>,
    /// The position of the attachment whose bytes make the part.
    pub attachment: usize,
}

/// Everything needed to make the HTTP call for one message.
#[derive(Debug, PartialEq, Eq, Clone)]
pub struct SendRequest {
    pub url: String,
    pub username: String,
    pub password: String,
    pub fields: Vec<(String, String)>,
    pub files: Vec<FilePart>,
    pub encoding: Encoding,
}

/// The URL that messages are posted to.
pub open spec fn messages_url_of(region: MailgunRegion, domain: Seq<char>) -> Seq<char> {
    base_url_of(region) + "/"@ + domain + "/messages"@
}

/// The file part that an attachment becomes.
pub open spec fn part_matches(p: FilePart, a: Attachment, i: int) -> bool {
    &&& p.field@ == part_name_of(a.kind)
    &&& opt_view(p.filename) == a.file_name_spec()
    &&& p.attachment == i
}

/// The file parts that a list of attachments becomes, one each, in order.
pub open spec fn parts_match(parts: Seq<FilePart>, atts: Seq<Attachment>) -> bool {
    &&& parts.len() == atts.len()
    &&& forall|i: int| 0 <= i < atts.len() ==> #[trigger] part_matches(parts[i], atts[i], i)
}

/// An inline attachment with a file name is sent as an `inline` part under that
/// name, and its `cid:` reference is that name behind `cid:`, so the HTML body can
/// point at the part.
pub proof fn lemma_inline_cid_names_part(parts: Seq<FilePart>, atts: Seq<Attachment>, i: int)
    requires
        parts_match(parts, atts),
        0 <= i < atts.len(),
        atts[i].kind == AttachmentKind::Inline,
        atts[i].file_name_spec() is Some,
    ensures
        parts[i].field@ == "inline"@,
        parts[i].filename is Some,
        atts[i].cid_spec() == Some("cid:"@ + parts[i].filename->0@),
{
    assert(part_matches(parts[i], atts[i], i));
}

/// Whether a status code is a success.
pub open spec fn is_success(status: u16) -> bool {
    200 <= status < 300
}

impl Mailgun {
    /// A client for `domain`; refused when either credential is empty.
    pub fn new(api_key: &str, domain: &str) -> (r: Result<Self, SendError>)
        ensures
            (api_key@.len() == 0 || domain@.len() == 0) <==> r is Err,
            r is Err ==> r == Err::<Self, SendError>(SendError::MissingCredential),
            r is Ok ==> r->Ok_0.api_key@ == api_key@ && r->Ok_0.domain@ == domain@,
    {
        if api_key.is_empty() || domain.is_empty() {
            Err(SendError::MissingCredential)
        } else {
            Ok(Mailgun { api_key: String::from_str(api_key), domain: String::from_str(domain) })
        }
    }

    /// The URL that this client posts messages to in `region`.
    pub fn messages_url(&self, region: MailgunRegion) -> (r: String)
        ensures
            r@ == messages_url_of(region, self.domain@),
    {
        let base = String::from_str(get_base_url(region));
        let mut url = base.concat("/");
        url.append(self.domain.as_str());
        url.append("/messages");
        url
    }

    /// The request that sends `message` from `sender` in `region`: the sender
    /// first, then the message's fields; multipart exactly when there are
    /// attachments, with one file part for each.
    pub fn build_request(
        &self,
        region: MailgunRegion,
        sender: &EmailAddress,
        message: &Message,
        attachments: &Vec<Attachment>,
    ) -> (r: SendRequest)
        ensures
            r.url@ == messages_url_of(region, self.domain@),
            r.username@ == "api"@,
            r.password@ == self.api_key@,
            fields_view(r.fields@) == seq![("from"@, sender.render_spec())] + message.params_spec(),
            r.encoding == (if attachments@.len() == 0 { Encoding::Form } else { Encoding::Multipart }),
            parts_match(r.files@, attachments@),
    {
        let url = self.messages_url(region);
        let mut fields: Vec<(String, String)> = Vec::new();
        fields.push((String::from_str("from"), sender.render()));
        let mut params = message.params();
        fields.append(&mut params);
        assert(fields_view(fields@) =~= seq![("from"@, sender.render_spec())] + message.params_spec());
        let files = file_parts(attachments);
        let encoding = if attachments.len() == 0 {
            Encoding::Form
        } else {
            Encoding::Multipart
        };
        SendRequest {
            url,
            username: String::from_str("api"),
            password: self.api_key.clone(),
            fields,
            files,
            encoding,
        }
    }
}

/// One file part per attachment, in order.
pub fn file_parts(attachments: &Vec<Attachment>) -> (r: Vec<FilePart>)
    ensures
        parts_match(r@, attachments@),
{
    let mut parts: Vec<FilePart> = Vec::new();
    let mut i: usize = 0;
    while i < attachments.len()
        invariant
            i <= attachments.len(),
            parts@.len() == i,
            forall|j: int| 0 <= j < i ==> #[trigger] part_matches(parts@[j], attachments@[j], j),
        decreases attachments.len() - i,
    {
        let a = &attachments[i];
        let part = FilePart { field: a.kind.part_name(), filename: a.file_name(), attachment: i };
        parts.push(part);
        i = i + 1;
    }
    parts
}

/// What a send returns, given the status of the answer, its body, and the
/// response decoded from that body where it had the expected shape.
pub fn send_outcome(status: u16, body: String, decoded: Option<SendResponse>) -> (r: Result<SendResponse, SendError>)
    ensures
        is_success(status) && decoded is Some ==> r == Ok::<SendResponse, SendError>(decoded->0),
        is_success(status) && decoded is None ==> r == Err::<SendResponse, SendError>(SendError::Decode(body)),
        !is_success(status) ==> r == Err::<SendResponse, SendError>(SendError::Provider { status, body }),
{
    if 200 <= status && status < 300 {
        match decoded {
            Some(resp) => Ok(resp),
            None => Err(SendError::Decode(body)),
        }
    } else {
        Err(SendError::Provider { status, body })
    }
}

} // verus!
