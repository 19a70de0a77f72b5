//! Addresses: what the shell reads of a URL.

use vstd::prelude::*;
use vstd::string::StringExecFns;
use url::Url;

verus! {

/// The mathematical content of an [`Address`].
pub struct AddressView {
    /// The address written out.
    pub text: Seq<char>,
    /// The host it names, if it names one.
    pub host: Option<Seq<char>>,
}

/// What `url::Url::parse` makes of `text`: nothing where it rejects the
/// text, else the parsed URL, read as its serialization and its host.
pub uninterp spec fn parsed_url(text: Seq<char>) -> Option<AddressView>;

/// A URL reduced to the two things the shell reads of one: its text and
/// its host. An address that names no host (`data:`, `mailto:` and their
/// like) has none.
#[derive(Debug, PartialEq, Eq)]
pub struct Address {
    text: String,
    host: Option<String>,
}

impl View for Address {
    type V = AddressView;

    closed spec fn view(&self) -> AddressView {
        AddressView { text: self.text@, host: optional_text(self.host) }
    }
}

/// The content of a string that may be missing.
pub open spec fn optional_text(text: Option<String>) -> Option<Seq<char>> {
    match text {
        Some(text) => Some(text@),
        None => None,
    }
}

/// The content of a string slice that may be missing.
pub open spec fn optional_str(text: Option<&str>) -> Option<Seq<char>> {
    match text {
        Some(text) => Some(text@),
        None => None,
    }
}

/// The content of an address that may be missing.
pub open spec fn optional_address(address: Option<Address>) -> Option<AddressView> {
    match address {
        Some(address) => Some(address@),
        None => None,
    }
}

/// The page that is loaded when no usable URL was asked for.
pub open spec fn local_start() -> AddressView {
    AddressView { text: "tauri://localhost"@, host: Some("localhost"@) }
}

/// Calls `url::Url::parse` on `text`.
///
/// Trusted: that the outcome depends on the text alone, so that it can be
/// named ([`parsed_url`]). Of an accepted text the address holds what the
/// parsed URL holds: the serialization, moved out of it, and a copy of
/// what `host_str` returns. Nothing is claimed about which texts are
/// accepted, nor about what the serialization or the host of one looks
/// like.
#[verifier::external_body]
fn parse_url(text: &str) -> (parsed: Option<Address>)
    ensures
        optional_address(parsed) == parsed_url(text@),
{
    match Url::parse(text) {
        Ok(url) => Some(Address { host: url.host_str().map(String::from), text: String::from(url) }),
        Err(_) => None,
    }
}

impl Clone for Address {
    fn clone(&self) -> (copy: Self)
        ensures
            copy == *self,
    {
        Address {
            text: self.text.clone(),
            host: match &self.host {
                Some(host) => Some(host.clone()),
                None => None,
            },
        }
    }
}

impl Address {
    /// An address from its parts, as a URL parser reported them.
    pub fn new(text: String, host: Option<String>) -> (address: Self)
        ensures
            address@ == (AddressView { text: text@, host: optional_text(host) }),
    {
        Address { text, host }
    }

    /// Reads `text` as an absolute URL, or says that it is none.
    pub fn parse(text: &str) -> (parsed: Option<Self>)
        ensures
            optional_address(parsed) == parsed_url(text@),
    {
        parse_url(text)
    }

    /// The local start page.
    pub fn local() -> (address: Self)
        ensures
            address@ == local_start(),
    {
        Address {
            text: String::from_str("tauri://localhost"),
            host: Some(String::from_str("localhost")),
        }
    }

    /// The address written out.
    pub fn as_str(&self) -> (text: &str)
        ensures
            text@ == self@.text,
    {
        self.text.as_str()
    }

    /// The host it names, if it names one.
    pub fn host(&self) -> (host: Option<&str>)
        ensures
            optional_str(host) == self@.host,
    {
        match &self.host {
            Some(host) => Some(host.as_str()),
            None => None,
        }
    }
}

} // verus!
