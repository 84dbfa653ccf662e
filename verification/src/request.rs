use vstd::prelude::*;
use crate::Config;
use crate::selection::Selections;
use crate::url::{build_url, spec_url};

verus! {

/// The one request the tool sends, derived from the configuration and the
/// user's selections: always a GET, with the built URL and the three fixed
/// headers in their fixed order.
pub struct Request {
    pub url: String,
    pub headers: Vec<(String, String)>,
}

/// The header list of every request: the authorization token as given, a
/// wildcard accept, and the configured host, in that order.
pub open spec fn spec_headers(host: Seq<char>, token: Seq<char>) -> Seq<(Seq<char>, Seq<char>)> {
    seq![("Authorization"@, token), ("Accept"@, "*/*"@), ("Host"@, host)]
}

/// The views of a built header list.
pub open spec fn header_views(headers: Seq<(String, String)>) -> Seq<(Seq<char>, Seq<char>)> {
    headers.map_values(|h: (String, String)| (h.0@, h.1@))
}

impl Request {
    /// Assembles the request: the URL exactly as `spec_url` lays it down, and
    /// the headers exactly as `spec_headers` lists them.
    pub fn new(config: &Config, sel: &Selections) -> (r: Request)
        ensures
            r.url@ == spec_url(config.base_url@, *sel),
            header_views(r.headers@) == spec_headers(config.host@, sel.auth_token@),
    {
        let url = build_url(config.base_url.as_str(), sel);
        let mut headers: Vec<(String, String)> = Vec::new();
        headers.push(
            (String::from_str("Authorization"), String::from_str(sel.auth_token.as_str())),
        );
        headers.push((String::from_str("Accept"), String::from_str("*/*")));
        headers.push((String::from_str("Host"), String::from_str(config.host.as_str())));
        proof {
            assert(header_views(headers@) =~= spec_headers(config.host@, sel.auth_token@));
        }
        Request { url, headers }
    }

    /// The only method the tool ever uses.
    pub fn method(&self) -> (r: &'static str)
        ensures
            r@ == "GET"@,
    {
        "GET"
    }
}

} // verus!
