use vstd::prelude::*;

use crate::nomad::{NodeDrainRequest, NodeEligibilityRequest};
use crate::vault::AwsIamLoginPayload;

verus! {

/// HTTP method of a request that the library asks to be sent
#[derive(Clone, Copy, Debug, PartialEq, Eq, Structural)]
pub enum Method {
    Get,
    Post,
}

/// JSON body of a request that the library asks to be sent
#[derive(Clone, Debug, PartialEq, Eq)]
pub enum RequestBody {
    /// No body
    Empty,
    /// Vault AWS IAM login payload
    AwsIamLogin(AwsIamLoginPayload),
    /// Nomad node eligibility update
    NodeEligibility(NodeEligibilityRequest),
    /// Nomad node drain
    NodeDrain(NodeDrainRequest),
}

/// A request to an HTTP API, described by plain values: the caller sends it.
///
/// `url` is the address without the query; `query` holds the query pairs in the
/// order in which they are appended to it.
#[derive(Clone, Debug, PartialEq, Eq)]
pub struct HttpRequest {
    pub method: Method,
    pub url: String,
    pub query: Vec<(String, String)>,
    pub headers: Vec<(String, String)>,
    pub body: RequestBody,
}

/// The texts of a list of string pairs.
pub open spec fn pairs_view(p: Seq<(String, String)>) -> Seq<(Seq<char>, Seq<char>)> {
    p.map_values(|x: (String, String)| (x.0@, x.1@))
}

/// The value paired with the first occurrence of `key`, if any.
pub open spec fn lookup(p: Seq<(Seq<char>, Seq<char>)>, key: Seq<char>) -> Option<Seq<char>>
    decreases p.len(),
{
    if p.len() == 0 {
        None
    } else if p[0].0 == key {
        Some(p[0].1)
    } else {
        lookup(p.drop_first(), key)
    }
}

/// An `HttpRequest`, with its texts as sequences of characters.
pub struct RequestView {
    pub method: Method,
    pub url: Seq<char>,
    pub query: Seq<(Seq<char>, Seq<char>)>,
    pub headers: Seq<(Seq<char>, Seq<char>)>,
    pub body: RequestBody,
}

impl View for HttpRequest {
    type V = RequestView;

    open spec fn view(&self) -> RequestView {
        RequestView {
            method: self.method,
            url: self.url@,
            query: pairs_view(self.query@),
            headers: pairs_view(self.headers@),
            body: self.body,
        }
    }
}

/// The value paired with the first occurrence of `key` in `pairs`.
pub fn find_pair<'a>(pairs: &'a Vec<(String, String)>, key: &str) -> (r: Option<&'a String>)
    ensures
        match lookup(pairs_view(pairs@), key@) {
            Some(v) => r matches Some(s) && s@ == v,
            None => r is None,
        },
{
    let k = key.to_owned();
    let mut i: usize = 0;
    assert(pairs_view(pairs@).skip(0) =~= pairs_view(pairs@));
    while i < pairs.len()
        invariant
            i <= pairs.len(),
            k@ == key@,
            lookup(pairs_view(pairs@), key@) == lookup(pairs_view(pairs@).skip(i as int), key@),
        decreases pairs.len() - i,
    {
        let ghost rest = pairs_view(pairs@).skip(i as int);
        assert(rest.drop_first() =~= pairs_view(pairs@).skip(i + 1));
        if pairs[i].0 == k {
            return Some(&pairs[i].1);
        }
        i = i + 1;
    }
    assert(pairs_view(pairs@).skip(i as int).len() == 0);
    None
}

impl HttpRequest {
    /// The value of the first header named `name` (names compared exactly).
    pub fn header(&self, name: &str) -> (r: Option<&String>)
        ensures
            match lookup(self@.headers, name@) {
                Some(v) => r matches Some(s) && s@ == v,
                None => r is None,
            },
    {
        find_pair(&self.headers, name)
    }
}

} // verus!
