//! A client library for sending email through the Mailgun HTTP API: the message
//! model, its encoding into form fields and file parts, and the request for a
//! region and a sending domain.
pub mod address;
pub mod attachment;
pub mod client;
pub mod message;
pub mod region;

pub use address::EmailAddress;
pub use attachment::{Attachment, AttachmentKind, AttachmentSource};
pub use client::{send_outcome, Encoding, FilePart, Mailgun, SendError, SendRequest, SendResponse};
pub use message::{join_addresses, Message, MessageBuilder};
pub use region::{get_base_url, MailgunRegion};
