//! The shape of the directory's HTTP request: the query URL pieces, the
//! request target derived from them, and the status classification. The
//! socket work of actually sending the request lives outside the library.

use vstd::prelude::*;

use crate::error::Error;
use crate::text::{dec_str, u16_to_dec};

verus! {

/// The directory query URL, kept as its meaningful pieces: the agent's host
/// and port, the encoded path, and the encoded query string when any
/// parameter is present.
pub struct QueryUrl {
    /// The directory agent's host, as it appears in the URL authority.
    pub host: String,
    /// The directory agent's TCP port.
    pub port: u16,
    /// The absolute path, percent-encoded, starting with `/`.
    pub path: String,
    /// The form-encoded query string, without the leading `?`; absent when
    /// the query has no parameters.
    pub query: Option<String>,
}

/// The mathematical content of a [`QueryUrl`].
pub struct QueryUrlView {
    /// The host text.
    pub host: Seq<char>,
    /// The port number.
    pub port: u16,
    /// The path text.
    pub path: Seq<char>,
    /// The query text, when present.
    pub query: Option<Seq<char>>,
}

impl View for QueryUrl {
    type V = QueryUrlView;

    open spec fn view(&self) -> QueryUrlView {
        QueryUrlView {
            host: self.host@,
            port: self.port,
            path: self.path@,
            query: match self.query {
                Option::Some(q) => Option::Some(q@),
                Option::None => Option::None,
            },
        }
    }
}

/// The request target sent on the wire: the path, then `?` and the query
/// string when one is present.
pub open spec fn request_target_spec(u: QueryUrlView) -> Seq<char> {
    match u.query {
        Option::Some(q) => u.path + seq!['?'] + q,
        Option::None => u.path,
    }
}

/// The whole URL as text: scheme, authority with a decimal port, and the
/// request target.
pub open spec fn url_text_spec(u: QueryUrlView) -> Seq<char> {
    "http://"@ + u.host + seq![':'] + dec_str(u.port as int) + request_target_spec(u)
}

impl QueryUrl {
    /// The request target for the HTTP request line.
    pub fn request_target(&self) -> (r: String)
        ensures
            r@ == request_target_spec(self@),
    {
        match &self.query {
            Option::None => self.path.clone(),
            Option::Some(q) => {
                let mut r = self.path.clone();
                r.append("?");
                r.append(q.as_str());
                proof {
                    reveal_strlit("?");
                    assert(r@ =~= request_target_spec(self@));
                }
                r
            },
        }
    }

    /// The whole URL as text, for the operational log stream.
    pub fn text(&self) -> (r: String)
        ensures
            r@ == url_text_spec(self@),
    {
        let mut r = String::from_str("http://");
        r.append(self.host.as_str());
        r.append(":");
        let port = u16_to_dec(self.port);
        r.append(port.as_str());
        let target = self.request_target();
        r.append(target.as_str());
        proof {
            reveal_strlit(":");
            assert(r@ =~= url_text_spec(self@));
        }
        r
    }
}

/// Whether an HTTP status code reports success: any code in the 200 range.
pub open spec fn is_success_status_spec(status: u16) -> bool {
    status / 100 == 2
}

/// Whether an HTTP status code reports success.
pub fn is_success_status(status: u16) -> (r: bool)
    ensures
        r == is_success_status_spec(status),
{
    status / 100 == 2
}

/// Classifies the directory's HTTP response status: any non-2xx status is a
/// hard query failure, `DirectoryError`.
pub fn check_status(status: u16) -> (r: Result<(), Error>)
    ensures
        r is Ok <==> is_success_status_spec(status),
        r matches Err(e) ==> e == Error::DirectoryError,
{
    if is_success_status(status) {
        Ok(())
    } else {
        Err(Error::DirectoryError)
    }
}

} // verus!
