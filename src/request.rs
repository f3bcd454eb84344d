//! The inbound request as the router sees it.

use vstd::prelude::*;
use crate::text::{eq_ignore_ascii_case, same_name};

verus! {

/// The request method.
#[derive(Clone, Debug)]
pub enum Method {
    Get,
    Head,
    Post,
    Put,
    Delete,
    Patch,
    Options,
    Connect,
    Trace,
    Other(String),
}

impl Method {
    pub open spec fn is_get_or_head_spec(&self) -> bool {
        self is Get || self is Head
    }

    /// Whether the method is `GET` or `HEAD`, the two that static assets accept.
    pub fn is_get_or_head(&self) -> (r: bool)
        ensures
            r == self.is_get_or_head_spec(),
    {
        match self {
            Method::Get | Method::Head => true,
            _ => false,
        }
    }
}

/// Index `i` is the first position of `s` whose element satisfies `p`.
pub open spec fn is_first_match<A>(s: Seq<A>, p: spec_fn(A) -> bool, i: int) -> bool {
    0 <= i < s.len() && p(s[i]) && forall|j: int| 0 <= j < i ==> !p(#[trigger] s[j])
}

/// The first element of `s` that satisfies `p`, if any.
pub open spec fn first_match<A>(s: Seq<A>, p: spec_fn(A) -> bool) -> Option<A> {
    if exists|i: int| is_first_match(s, p, i) {
        Some(s[choose|i: int| is_first_match(s, p, i)])
    } else {
        None
    }
}

/// Finding the first match at `i` determines `first_match`.
pub proof fn lemma_first_match_at<A>(s: Seq<A>, p: spec_fn(A) -> bool, i: int)
    requires
        is_first_match(s, p, i),
    ensures
        first_match(s, p) == Some(s[i]),
{
    let k = choose|k: int| is_first_match(s, p, k);
    assert(is_first_match(s, p, k));
    if k < i {
        assert(!p(s[k]));
    } else if i < k {
        assert(!p(s[i]));
    }
}

/// When no element satisfies `p`, there is no first match.
pub proof fn lemma_first_match_none<A>(s: Seq<A>, p: spec_fn(A) -> bool)
    requires
        forall|j: int| 0 <= j < s.len() ==> !p(#[trigger] s[j]),
    ensures
        first_match(s, p) == None::<A>,
{
    if exists|i: int| is_first_match(s, p, i) {
        let k = choose|k: int| is_first_match(s, p, k);
        assert(p(s[k]));
    }
}

/// A header entry whose name is `name`, up to ASCII case.
pub open spec fn header_named(name: Seq<char>) -> spec_fn((String, String)) -> bool {
    |h: (String, String)| same_name(h.0@, name)
}

/// A query entry whose name is exactly `name`.
pub open spec fn param_named(name: Seq<char>) -> spec_fn((String, String)) -> bool {
    |q: (String, String)| q.0@ == name
}

/// The value of the first entry that `p` selects.
pub open spec fn first_value(s: Seq<(String, String)>, p: spec_fn((String, String)) -> bool) -> Option<Seq<char>> {
    match first_match(s, p) {
        Some(e) => Some(e.1@),
        None => None,
    }
}

/// An inbound HTTP request: method, path, headers and decoded query parameters,
/// each list in the order in which it arrived.
#[derive(Clone, Debug)]
pub struct InboundRequest {
    pub method: Method,
    pub path: String,
    pub headers: Vec<(String, String)>,
    pub query: Vec<(String, String)>,
}

impl InboundRequest {
    /// The value of the header `name` (names compare ASCII-case-insensitively;
    /// the first such header counts).
    pub open spec fn header_spec(&self, name: Seq<char>) -> Option<Seq<char>> {
        first_value(self.headers@, header_named(name))
    }

    /// The value of the query parameter `name` (the first one counts).
    pub open spec fn query_spec(&self, name: Seq<char>) -> Option<Seq<char>> {
        first_value(self.query@, param_named(name))
    }

    /// A request with no headers and no query parameters.
    pub fn new(method: Method, path: String) -> (r: InboundRequest)
        ensures
            r.method == method,
            r.path == path,
            r.headers@.len() == 0,
            r.query@.len() == 0,
    {
        InboundRequest { method, path, headers: Vec::new(), query: Vec::new() }
    }

    /// Adds a header after those already present.
    pub fn with_header(self, name: String, value: String) -> (r: InboundRequest)
        ensures
            r.method == self.method,
            r.path == self.path,
            r.headers@ == self.headers@.push((name, value)),
            r.query@ == self.query@,
    {
        let mut r = self;
        r.headers.push((name, value));
        r
    }

    /// Adds a query parameter after those already present.
    pub fn with_query(self, name: String, value: String) -> (r: InboundRequest)
        ensures
            r.method == self.method,
            r.path == self.path,
            r.headers@ == self.headers@,
            r.query@ == self.query@.push((name, value)),
    {
        let mut r = self;
        r.query.push((name, value));
        r
    }

    /// The value of the first header called `name`, up to ASCII case.
    pub fn header(&self, name: &str) -> (r: Option<&String>)
        ensures
            match r {
                Some(v) => self.header_spec(name@) == Some(v@),
                None => self.header_spec(name@) is None,
            },
    {
        let ghost p = header_named(name@);
        let mut i: usize = 0;
        while i < self.headers.len()
            invariant
                p == header_named(name@),
                i <= self.headers@.len(),
                forall|j: int| 0 <= j < i ==> !p(#[trigger] self.headers@[j]),
            decreases self.headers@.len() - i,
        {
            if eq_ignore_ascii_case(self.headers[i].0.as_str(), name) {
                proof {
                    assert(p(self.headers@[i as int]));
                    lemma_first_match_at(self.headers@, p, i as int);
                }
                return Some(&self.headers[i].1);
            }
            i = i + 1;
        }
        proof {
            lemma_first_match_none(self.headers@, p);
        }
        None
    }

    /// The value of the first query parameter called exactly `name`.
    pub fn query_param(&self, name: &str) -> (r: Option<&String>)
        ensures
            match r {
                Some(v) => self.query_spec(name@) == Some(v@),
                None => self.query_spec(name@) is None,
            },
    {
        let ghost p = param_named(name@);
        let key = name.to_owned();
        let mut i: usize = 0;
        while i < self.query.len()
            invariant
                p == param_named(name@),
                key@ == name@,
                i <= self.query@.len(),
                forall|j: int| 0 <= j < i ==> !p(#[trigger] self.query@[j]),
            decreases self.query@.len() - i,
        {
            if self.query[i].0 == key {
                proof {
                    assert(p(self.query@[i as int]));
                    lemma_first_match_at(self.query@, p, i as int);
                }
                return Some(&self.query[i].1);
            }
            i = i + 1;
        }
        proof {
            lemma_first_match_none(self.query@, p);
        }
        None
    }
}

} // verus!
