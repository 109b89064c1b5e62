use vstd::prelude::*;

verus! {

/// The provider's data-center clusters, each with its own API origin.
#[derive(Debug, Clone, Copy, PartialEq, Eq)]
pub enum MailgunRegion {
    US,
    EU,
}

/// The base API origin of a region.
pub open spec fn base_url_of(region: MailgunRegion) -> Seq<char> {
    match region {
        MailgunRegion::US => "https://api.mailgun.net/v3"@,
        MailgunRegion::EU => "https://api.eu.mailgun.net/v3"@,
    }
}

/// Returns the base API origin of `region`.
pub fn get_base_url(region: MailgunRegion) -> (r: &'static str)
    ensures
        r@ == base_url_of(region),
{
    match region {
        MailgunRegion::US => "https://api.mailgun.net/v3",
        MailgunRegion::EU => "https://api.eu.mailgun.net/v3",
    }
}

} // verus!
