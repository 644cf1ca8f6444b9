//! The ACME directory: the server's resource map, kept as the JSON text it sent.
use vstd::prelude::*;

use crate::error::AcmeError;
use crate::json::{
    is_json, json_member_text, json_quoted, json_string, json_string_member, member_text,
    parses_as_json, string_member,
};
use crate::status_ok;

verus! {

/// The persisted form of a directory: `{"url":<url>,"directory":<document>}`.
pub open spec fn directory_record(url: Seq<char>, document: Seq<char>) -> Seq<char> {
    "{\"url\":"@ + json_quoted(url) + ",\"directory\":"@ + document + "}"@
}

/// The ACME directory fetched from `url`: `document` is the JSON object that maps
/// resource names (`newNonce`, `newAccount`, `newOrder`, ...) to URLs. Names that this
/// client does not use are kept. A directory never changes once made.
#[derive(Debug, Clone)]
pub struct Directory {
    url: String,
    document: String,
}

impl Directory {
    pub closed spec fn url_view(&self) -> Seq<char> {
        self.url@
    }

    pub closed spec fn document_view(&self) -> Seq<char> {
        self.document@
    }

    /// The URL that the directory maps `resource` to, if any.
    pub open spec fn lookup(&self, resource: Seq<char>) -> Option<Seq<char>> {
        json_string_member(self.document_view(), resource)
    }

    /// A directory from the URL it was fetched from and the document it returned.
    pub fn new(url: String, document: String) -> (r: Directory)
        ensures
            r.url_view() == url@,
            r.document_view() == document@,
    {
        Directory { url, document }
    }

    /// A directory from the response to a GET of `url`: the status must be a success
    /// and the body well-formed JSON, else `BadDirectory` carries the body.
    pub fn from_response(url: String, status: u16, body: String) -> (r: Result<
        Directory,
        AcmeError,
    >)
        ensures
            match r {
                Ok(d) => status_ok(status) && is_json(body@) && d.url_view() == url@
                    && d.document_view() == body@,
                Err(e) => !(status_ok(status) && is_json(body@)) && e
                    == AcmeError::BadDirectory(body),
            },
    {
        if !crate::http_status_ok(status) || !parses_as_json(body.as_str()) {
            return Err(AcmeError::BadDirectory(body));
        }
        Ok(Directory { url, document: body })
    }

    /// The URL the directory was fetched from.
    pub fn url(&self) -> (r: &String)
        ensures
            r@ == self.url_view(),
    {
        &self.url
    }

    /// The directory document as JSON text.
    pub fn document(&self) -> (r: &String)
        ensures
            r@ == self.document_view(),
    {
        &self.document
    }

    /// The URL for a resource name, or none when the directory does not list it.
    pub fn url_for(&self, resource: &str) -> (r: Option<String>)
        ensures
            match r {
                Some(u) => self.lookup(resource@) == Some(u@),
                None => self.lookup(resource@) is None,
            },
    {
        string_member(self.document.as_str(), resource)
    }

    /// The persisted JSON form, `{"url":...,"directory":...}`.
    pub fn to_json(&self) -> (r: String)
        ensures
            r@ == directory_record(self.url_view(), self.document_view()),
    {
        let mut s = String::from_str("{\"url\":");
        s.append(json_string(self.url.as_str()).as_str());
        s.append(",\"directory\":");
        s.append(self.document.as_str());
        s.append("}");
        s
    }

    /// Reads the persisted JSON form back: the string member `url` and the object
    /// member `directory` are both required.
    pub fn from_json(record: &str) -> (r: Result<Directory, AcmeError>)
        ensures
            match r {
                Ok(d) => json_string_member(record@, "url"@) == Some(d.url_view())
                    && json_member_text(record@, "directory"@) == Some(d.document_view()),
                Err(e) => e == AcmeError::CorruptStore && (json_string_member(
                    record@,
                    "url"@,
                ) is None || json_member_text(record@, "directory"@) is None),
            },
    {
        let url = match string_member(record, "url") {
            Some(u) => u,
            None => return Err(AcmeError::CorruptStore),
        };
        match member_text(record, "directory") {
            Some(document) => Ok(Directory { url, document }),
            None => Err(AcmeError::CorruptStore),
        }
    }
}

} // verus!
