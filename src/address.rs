use vstd::prelude::*;
use vstd::string::StringExecFns;

verus! {

/// A mailbox: an optional display name and an address.
#[derive(Debug, PartialEq, Eq, Clone)]
pub struct EmailAddress {
    pub name: Option<String>,
    pub address: String,
}

/// The wire form of a mailbox: `Name <address>`, or the bare address.
pub open spec fn rendered(name: Option<Seq<char>>, address: Seq<char>) -> Seq<char> {
    match name {
        Some(n) => n + " <"@ + address + ">"@,
        None => address,
    }
}

impl EmailAddress {
    /// The display name as a plain sequence, if any.
    pub open spec fn name_view(&self) -> Option<Seq<char>> {
        match self.name {
            Some(n) => Some(n@),
            None => None,
        }
    }

    /// The wire form of this mailbox.
    pub open spec fn render_spec(&self) -> Seq<char> {
        rendered(self.name_view(), self.address@)
    }

    /// A mailbox with no display name.
    pub fn address(address: &str) -> (r: Self)
        ensures
            r.name is None,
            r.address@ == address@,
    {
        EmailAddress { name: None, address: String::from_str(address) }
    }

    /// A mailbox with a display name.
    pub fn name_address(name: &str, address: &str) -> (r: Self)
        ensures
            r.name_view() == Some(name@),
            r.address@ == address@,
    {
        EmailAddress { name: Some(String::from_str(name)), address: String::from_str(address) }
    }

    /// Renders the mailbox as `Name <address>`, or as the bare address when it has no name.
    pub fn render(&self) -> (r: String)
        ensures
            r@ == self.render_spec(),
    {
        match &self.name {
            Some(name) => {
                let mut s = name.clone();
                s.append(" <");
                s.append(self.address.as_str());
                s.append(">");
                s
            },
            None => self.address.clone(),
        }
    }
}

} // verus!
