//! The GraphQL request that asks the upstream service for a player.

use vstd::prelude::*;
use crate::identifier::IdKind;

verus! {

/// Where every request goes.
pub const UPSTREAM_URL: &'static str = "https://api.mccisland.net/graphql";

/// A header of the request.
#[derive(Clone, Debug, PartialEq)]
pub struct Header {
    pub name: String,
    pub value: String,
}

/// The headers that every request carries: the content type, the API key
/// and the user agent, in this order.
pub fn request_headers(api_key: &str) -> (headers: Vec<Header>)
    ensures
        headers@.len() == 3,
        headers@[0].name@ == "Content-Type"@,
        headers@[0].value@ == "application/json"@,
        headers@[1].name@ == "X-API-Key"@,
        headers@[1].value@ == api_key@,
        headers@[2].name@ == "User-Agent"@,
        headers@[2].value@ == "iStats/1.0 <radsteve@radsteve.net>"@,
{
    let mut headers: Vec<Header> = Vec::new();
    headers.push(
        Header {
            name: String::from_str("Content-Type"),
            value: String::from_str("application/json"),
        },
    );
    headers.push(Header { name: String::from_str("X-API-Key"), value: String::from_str(api_key) });
    headers.push(
        Header {
            name: String::from_str("User-Agent"),
            value: String::from_str("iStats/1.0 <radsteve@radsteve.net>"),
        },
    );
    headers
}

/// The two query documents, one for each kind of key. The library does not
/// read them: they are text to send.
#[derive(Clone, Debug, PartialEq)]
pub struct QueryDocuments {
    pub by_name: String,
    pub by_uuid: String,
}

/// The name of the GraphQL variable that carries a key of kind `kind`.
pub open spec fn variable_text(kind: IdKind) -> Seq<char> {
    match kind {
        IdKind::Uuid => "uuid"@,
        IdKind::Username => "name"@,
    }
}

/// The name of the GraphQL variable that carries a key of kind `kind`.
pub fn variable_name(kind: IdKind) -> (name: &'static str)
    ensures
        name@ == variable_text(kind),
{
    match kind {
        IdKind::Uuid => "uuid",
        IdKind::Username => "name",
    }
}

impl QueryDocuments {
    /// The text of the document that queries by a key of kind `kind`.
    pub open spec fn document_text(&self, kind: IdKind) -> Seq<char> {
        match kind {
            IdKind::Uuid => self.by_uuid@,
            IdKind::Username => self.by_name@,
        }
    }

    /// The document that queries by a key of kind `kind`.
    pub fn document(&self, kind: IdKind) -> (document: &str)
        ensures
            document@ == self.document_text(kind),
    {
        match kind {
            IdKind::Uuid => self.by_uuid.as_str(),
            IdKind::Username => self.by_name.as_str(),
        }
    }
}

/// The JSON text that `serde_json` writes for a string with the characters
/// `s`: the characters between double quotes, escaped where JSON asks for it.
pub uninterp spec fn json_string_text(s: Seq<char>) -> Seq<char>;

/// `serde_json`'s `Display` for a `Value` that holds the string `s`. The text
/// it writes depends on `s` alone, and writing into a `String` cannot fail.
#[verifier::external_body]
fn json_string(s: &str) -> (text: String)
    ensures
        text@ == json_string_text(s@),
{
    serde_json::Value::from(s).to_string()
}

/// The request body around three JSON strings: the object
/// `{"query":document,"variables":{variable:id}}`, without white space.
pub open spec fn framed(document: Seq<char>, variable: Seq<char>, id: Seq<char>) -> Seq<char> {
    "{\"query\":"@ + document + ",\"variables\":{"@ + variable + ":"@ + id + "}}"@
}

/// The request body for the query `document` with `id` as its variable
/// `variable`.
pub open spec fn body_text(document: Seq<char>, variable: Seq<char>, id: Seq<char>) -> Seq<char> {
    framed(json_string_text(document), json_string_text(variable), json_string_text(id))
}

/// Puts three JSON strings into the request object. The arguments are JSON
/// text already, quotes included.
pub fn frame(document: &str, variable: &str, id: &str) -> (body: String)
    ensures
        body@ == framed(document@, variable@, id@),
{
    let mut body = String::from_str("{\"query\":");
    body.append(document);
    body.append(",\"variables\":{");
    body.append(variable);
    body.append(":");
    body.append(id);
    body.append("}}");
    body
}

/// The request body for the query `document` with `id` as its variable
/// `variable`.
pub fn request_body(document: &str, variable: &str, id: &str) -> (body: String)
    ensures
        body@ == body_text(document@, variable@, id@),
{
    let document_json = json_string(document);
    let variable_json = json_string(variable);
    let id_json = json_string(id);
    frame(document_json.as_str(), variable_json.as_str(), id_json.as_str())
}

/// The request body that asks for the player `id`, a key of kind `kind`.
pub fn build_request(documents: &QueryDocuments, id: &str, kind: IdKind) -> (body: String)
    ensures
        body@ == body_text(documents.document_text(kind), variable_text(kind), id@),
{
    request_body(documents.document(kind), variable_name(kind), id)
}

} // verus!
