//! Connection details of an Iceberg catalog.
use vstd::prelude::*;

verus! {

/// A named set of connection details for an Iceberg catalog. Two details
/// denote the same connection when their URIs are equal, whatever their
/// identifiers and names.
#[derive(Clone, Debug)]
pub struct ConnectionDetails {
    /// Identifier of this entry (the 128 bits of a UUID).
    pub id: u128,
    /// The name of this connection.
    pub name: String,
    /// The URI of the catalog, in its textual form.
    pub uri: String,
}

/// What a `ConnectionDetails` holds, with its strings seen as characters.
pub struct ConnectionView {
    pub id: u128,
    pub name: Seq<char>,
    pub uri: Seq<char>,
}

impl View for ConnectionDetails {
    type V = ConnectionView;

    open spec fn view(&self) -> ConnectionView {
        ConnectionView { id: self.id, name: self.name@, uri: self.uri@ }
    }
}

/// A URI without its trailing slash, if it has one.
pub open spec fn base_uri(uri: Seq<char>) -> Seq<char> {
    if uri.len() > 0 && uri.last() == '/' {
        uri.drop_last()
    } else {
        uri
    }
}

/// Relies on `uuid::Uuid::new_v4` and `Uuid::as_u128`: a fresh random
/// identifier. Nothing is known of its value. (`new_v4` panics only when the
/// operating system's randomness source fails.)
#[verifier::external_body]
fn random_id() -> (r: u128) {
    uuid::Uuid::new_v4().as_u128()
}

/// Relies on `names::Generator::default` and its `Iterator::next`, which
/// always returns `Some` with a random "adjective-noun" name.
#[verifier::external_body]
fn random_name() -> (r: Option<String>)
    ensures
        r is Some,
{
    names::Generator::default().next()
}

impl ConnectionDetails {
    /// Details for a catalog that the user gave by URI alone: a fresh random
    /// identifier and a random name.
    pub fn new_anon(uri: String) -> (r: Self)
        ensures
            r.uri@ == uri@,
    {
        let id = random_id();
        let name = random_name().unwrap();
        ConnectionDetails { id, name, uri }
    }

    /// The base URI of the catalog's REST endpoint: the URI without its
    /// trailing slash, if it has one.
    pub fn catalog_base_uri(&self) -> (r: String)
        ensures
            r@ == base_uri(self.uri@),
    {
        let n = self.uri.as_str().unicode_len();
        if n > 0 && self.uri.as_str().get_char(n - 1) == '/' {
            self.uri.as_str().substring_char(0, n - 1).to_owned()
        } else {
            self.uri.clone()
        }
    }

    /// A copy of these details.
    pub fn duplicate(&self) -> (r: Self)
        ensures
            r@ == self@,
    {
        ConnectionDetails { id: self.id, name: self.name.clone(), uri: self.uri.clone() }
    }
}

impl PartialEq for ConnectionDetails {
    fn eq(&self, other: &ConnectionDetails) -> (r: bool) {
        self.uri == other.uri
    }
}

impl vstd::std_specs::cmp::PartialEqSpecImpl for ConnectionDetails {
    open spec fn obeys_eq_spec() -> bool {
        true
    }

    open spec fn eq_spec(&self, other: &ConnectionDetails) -> bool {
        self.uri@ == other.uri@
    }
}

} // verus!
