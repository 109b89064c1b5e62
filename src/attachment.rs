use vstd::prelude::*;
use vstd::string::StringExecFns;

verus! {

/// Whether an attachment is a separate file or is referenced from the HTML body.
#[derive(Debug, PartialEq, Eq, Clone, Copy)]
pub enum AttachmentKind {
    Attachment,
    Inline,
}

/// Where an attachment's bytes come from.
#[derive(Debug, PartialEq, Eq, Clone)]
pub enum AttachmentSource {
    /// A file on the local file system, read at send time.
    Path(String),
    /// Bytes held in memory, with the file name to send them under.
    Bytes { filename: String, content: Vec<u8> },
}

/// A file that travels with a message.
#[derive(Debug, PartialEq, Eq, Clone)]
pub struct Attachment {
    pub source: AttachmentSource,
    pub kind: AttachmentKind,
}

/// The final component of a path, where it has one.
pub uninterp spec fn path_file_name(path: Seq<char>) -> Option<Seq<char>>;

/// Relies on std::path::Path::file_name: the final component of the path, or
/// none where the path ends in `..` or is a root. A component of a `&str` path is
/// valid UTF-8, so the conversion back to text keeps it.
#[verifier::external_body]
fn file_name_of(path: &str) -> (r: Option<String>)
    ensures
        opt_view(r) == path_file_name(path@),
{
    std::path::Path::new(path).file_name().and_then(|n| n.to_str()).map(|n| n.to_string())
}

/// An optional string as an optional sequence.
pub open spec fn opt_view(o: Option<String>) -> Option<Seq<char>> {
    match o {
        Some(s) => Some(s@),
        None => None,
    }
}

/// The name of the multipart field that carries an attachment of this kind.
pub open spec fn part_name_of(kind: AttachmentKind) -> Seq<char> {
    match kind {
        AttachmentKind::Attachment => "attachment"@,
        AttachmentKind::Inline => "inline"@,
    }
}

impl AttachmentKind {
    /// The multipart field name for this kind: `attachment` or `inline`.
    pub fn part_name(&self) -> (r: String)
        ensures
            r@ == part_name_of(*self),
    {
        match self {
            AttachmentKind::Attachment => String::from_str("attachment"),
            AttachmentKind::Inline => String::from_str("inline"),
        }
    }
}

impl Attachment {
    /// The file name the attachment is sent under.
    pub open spec fn file_name_spec(&self) -> Option<Seq<char>> {
        match self.source {
            AttachmentSource::Path(p) => path_file_name(p@),
            AttachmentSource::Bytes { filename, .. } => Some(filename@),
        }
    }

    /// The `cid:` reference of an inline attachment.
    pub open spec fn cid_spec(&self) -> Option<Seq<char>> {
        match (self.kind, self.file_name_spec()) {
            (AttachmentKind::Inline, Some(n)) => Some("cid:"@ + n),
            _ => None,
        }
    }

    /// An attachment read from a file.
    pub fn from_path(path: &str, kind: AttachmentKind) -> (r: Self)
        ensures
            r.source matches AttachmentSource::Path(p) && p@ == path@,
            r.kind == kind,
    {
        Attachment { source: AttachmentSource::Path(String::from_str(path)), kind }
    }

    /// An attachment held in memory.
    pub fn from_bytes(filename: &str, content: Vec<u8>, kind: AttachmentKind) -> (r: Self)
        ensures
            r.source matches AttachmentSource::Bytes { filename: f, content: c } && f@ == filename@
                && c@ == content@,
            r.kind == kind,
    {
        Attachment {
            source: AttachmentSource::Bytes { filename: String::from_str(filename), content },
            kind,
        }
    }

    /// The file name the attachment is sent under: the base name of its path, or
    /// the name given with its bytes.
    pub fn file_name(&self) -> (r: Option<String>)
        ensures
            opt_view(r) == self.file_name_spec(),
    {
        match &self.source {
            AttachmentSource::Path(p) => file_name_of(p.as_str()),
            AttachmentSource::Bytes { filename, .. } => Some(filename.clone()),
        }
    }

    /// The `cid:` reference that an HTML body uses for an inline attachment;
    /// none for a regular one.
    pub fn cid(&self) -> (r: Option<String>)
        ensures
            opt_view(r) == self.cid_spec(),
    {
        match self.kind {
            AttachmentKind::Inline => match self.file_name() {
                Some(n) => {
                    let c = String::from_str("cid:");
                    Some(c.concat(n.as_str()))
                },
                None => None,
            },
            AttachmentKind::Attachment => None,
        }
    }
}

} // verus!
