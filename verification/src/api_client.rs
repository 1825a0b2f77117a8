//! What the HTTP side of the client computes: settings and query strings.

use crate::strmap::StrMap;
use crate::text::{concat, join_strings, joined, lemma_deep_view_push};
use vstd::prelude::*;

verus! {

/// Settings of the HTTP client. Timeouts are in seconds.
#[derive(Clone, Copy, Debug, PartialEq, Eq, Structural)]
pub struct HttpConfig {
    pub read_timeout: u64,
    pub connect_timeout: u64,
    pub https_only: bool,
    pub max_retry: u32,
}

impl Default for HttpConfig {
    fn default() -> (c: Self)
        ensures
            c == (HttpConfig {
                read_timeout: 5,
                connect_timeout: 2,
                https_only: false,
                max_retry: 3,
            }),
    {
        HttpConfig { read_timeout: 5u64, connect_timeout: 2u64, https_only: false, max_retry: 3 }
    }
}

impl HttpConfig {
    /// The settings to build the HTTP client with: those given, else the defaults.
    pub fn or_default(config: Option<HttpConfig>) -> (c: HttpConfig)
        ensures
            c == (match config {
                Some(given) => given,
                None => HttpConfig {
                    read_timeout: 5,
                    connect_timeout: 2,
                    https_only: false,
                    max_retry: 3,
                },
            }),
    {
        match config {
            Some(given) => given,
            None => HttpConfig::default(),
        }
    }
}

/// The parameters of a request, to be written as a query string.
pub struct Query<'a>(pub &'a StrMap<String>);

/// The pairs `key=value` of a mapping, for the first `n` keys of `keys`.
pub open spec fn pairs(keys: Seq<Seq<char>>, m: Map<Seq<char>, Seq<char>>, n: int) -> Seq<
    Seq<char>,
> {
    Seq::new(n as nat, |i: int| keys[i] + seq!['='] + m[keys[i]])
}

/// The query string of parameters: `key=value` for every parameter in the
/// order of the keys, joined by `&`.
pub open spec fn query_string(keys: Seq<Seq<char>>, m: Map<Seq<char>, Seq<char>>) -> Seq<char> {
    joined(pairs(keys, m, keys.len() as int), seq!['&'])
}

impl<'a> Query<'a> {
    /// The query string; none where there are no parameters.
    pub fn query(&self) -> (r: Option<String>)
        ensures
            r is None <==> self.0@.len() == 0,
            r matches Some(s) ==> s@ == query_string(self.0.keys(), self.0@),
    {
        let params = self.0;
        let n = params.len();
        if n == 0 {
            return None;
        }
        let mut parts: Vec<String> = Vec::new();
        let mut i: usize = 0;
        proof {
            reveal_strlit("=");
            reveal_strlit("&");
            assert("="@ =~= seq!['=']);
            assert("&"@ =~= seq!['&']);
        }
        while i < n
            invariant
                i <= n,
                n == params.keys().len(),
                "="@ == seq!['='],
                parts@.len() == i,
                parts.deep_view() == pairs(params.keys(), params@, i as int),
            decreases n - i,
        {
            let key = params.key_at(i);
            let value = params.value_at(i);
            let pair = concat(concat(key.clone(), "="), value.as_str());
            let ghost grown = parts;
            parts.push(pair);
            proof {
                lemma_deep_view_push(grown, parts, pair);
                assert(parts.deep_view() =~= pairs(params.keys(), params@, i as int + 1));
            }
            i = i + 1;
        }
        Some(join_strings(&parts, "&"))
    }
}

/// The address of a request: `url`, and after a `?` the query string where
/// there are parameters.
pub fn url_with_query(url: &str, params: Option<&StrMap<String>>) -> (full: String)
    ensures
        full@ == (match params {
            Some(p) => if p@.len() == 0 {
                url@
            } else {
                url@ + seq!['?'] + query_string(p.keys(), p@)
            },
            None => url@,
        }),
{
    let mut full = url.to_owned();
    match params {
        Some(p) => {
            let query = Query(p);
            match query.query() {
                Some(query_string) => {
                    proof {
                        reveal_strlit("?");
                        assert("?"@ =~= seq!['?']);
                    }
                    full = concat(concat(full, "?"), query_string.as_str());
                },
                None => {},
            }
        },
        None => {},
    }
    full
}

} // verus!
