//! Endpoints: a path, query pairs in the order they were added, and the
//! `.json` suffix that every endpoint but the token endpoint carries.

use vstd::prelude::*;
use vstd::string::StringExecFns;

verus! {

/// The texts of a list of key and value pairs.
pub open spec fn pairs_view(pairs: Seq<(String, String)>) -> Seq<(Seq<char>, Seq<char>)> {
    pairs.map_values(|p: (String, String)| (p.0@, p.1@))
}

/// The query pairs as they stand in a URL: each one as `key=value&`.
pub open spec fn query_text(query: Seq<(Seq<char>, Seq<char>)>) -> Seq<char>
    decreases query.len(),
{
    if query.len() == 0 {
        Seq::empty()
    } else {
        query_text(query.drop_last()) + query.last().0 + "="@ + query.last().1 + "&"@
    }
}

/// The URL of an endpoint under a base URL: the base, a slash unless the
/// path is empty or brings its own, the path, a slash, `.json` where it is
/// asked for, and `?` with the query pairs where there are any.
pub open spec fn build_spec(
    base: Seq<char>,
    path: Seq<char>,
    query: Seq<(Seq<char>, Seq<char>)>,
    with_dot_json: bool,
) -> Seq<char> {
    let head = if path.len() == 0 || path[0] == '/' {
        base + path
    } else {
        base + "/"@ + path
    };
    let stem = if with_dot_json {
        head + "/"@ + ".json"@
    } else {
        head + "/"@
    };
    if query.len() > 0 {
        stem + "?"@ + query_text(query)
    } else {
        stem
    }
}

/// Whether a path is an absolute URL: it starts with `http`.
pub open spec fn is_absolute(path: Seq<char>) -> bool {
    path.len() >= 4 && path.subrange(0, 4) == "http"@
}

/// The URL that a client with this base URL sends a request to: an
/// endpoint whose path is an absolute URL is built on that URL alone,
/// every other endpoint under the base URL.
pub open spec fn url_spec(
    base: Seq<char>,
    path: Seq<char>,
    query: Seq<(Seq<char>, Seq<char>)>,
    with_dot_json: bool,
) -> Seq<char> {
    if is_absolute(path) {
        build_spec(path, Seq::empty(), query, with_dot_json)
    } else {
        build_spec(base, path, query, with_dot_json)
    }
}

/// Whether `s` ends in `tail`.
pub open spec fn ends_with(s: Seq<char>, tail: Seq<char>) -> bool {
    &&& tail.len() <= s.len()
    &&& s.subrange(s.len() - tail.len(), s.len() as int) == tail
}

/// An endpoint of the API.
#[derive(Debug)]
pub struct EndpointBuilder {
    pub path: String,
    pub query: Vec<(String, String)>,
    pub with_dot_json: bool,
}

impl EndpointBuilder {
    /// The query pairs as texts.
    pub open spec fn query_view(&self) -> Seq<(Seq<char>, Seq<char>)> {
        pairs_view(self.query@)
    }

    /// An endpoint with this path, no query and the `.json` suffix.
    pub fn new(path: &str) -> (r: Self)
        ensures
            r.path@ == path@,
            r.query@.len() == 0,
            r.with_dot_json,
    {
        EndpointBuilder { path: path.to_owned(), query: Vec::new(), with_dot_json: true }
    }

    /// Appends the other endpoint's path to this path and its query pairs to
    /// these.
    pub fn join(self, other: EndpointBuilder) -> (r: Self)
        ensures
            r.path@ == self.path@ + other.path@,
            r.query_view() == self.query_view() + other.query_view(),
            r.with_dot_json == self.with_dot_json,
    {
        let EndpointBuilder { path, query, with_dot_json } = self;
        let EndpointBuilder { path: other_path, query: other_query, with_dot_json: _ } = other;
        let mut path = path;
        let mut query = query;
        let mut other_query = other_query;
        let ghost before = pairs_view(query@);
        let ghost added = pairs_view(other_query@);
        path.append(other_path.as_str());
        query.append(&mut other_query);
        proof {
            assert(pairs_view(query@) =~= before + added);
        }
        EndpointBuilder { path, query, with_dot_json }
    }

    /// Adds one query pair at the end.
    pub fn query(self, key: &str, value: &str) -> (r: Self)
        ensures
            r.path@ == self.path@,
            r.query_view() == self.query_view().push((key@, value@)),
            r.with_dot_json == self.with_dot_json,
    {
        let mut added = self;
        added.with_query(key, value);
        added
    }

    /// Adds one query pair at the end, in place.
    pub fn with_query(&mut self, key: &str, value: &str)
        ensures
            final(self).path@ == old(self).path@,
            final(self).query_view() == old(self).query_view().push((key@, value@)),
            final(self).with_dot_json == old(self).with_dot_json,
    {
        self.query.push((key.to_owned(), value.to_owned()));
        proof {
            assert(self.query_view() =~= old(self).query_view().push((key@, value@)));
        }
    }

    /// The URL of this endpoint under `base_url`.
    pub fn build(&self, base_url: &str) -> (url: String)
        ensures
            url@ == build_spec(base_url@, self.path@, self.query_view(), self.with_dot_json),
    {
        let mut joined = String::from_str(base_url);
        let path = self.path.as_str();
        if path.unicode_len() == 0 || path.get_char(0) == '/' {
            joined.append(path);
        } else {
            joined.append("/");
            joined.append(path);
        }
        joined.append("/");
        if self.with_dot_json {
            joined.append(".json");
        }
        if self.query.len() > 0 {
            joined.append("?");
        }
        let ghost stem = joined@;
        let mut i: usize = 0;
        while i < self.query.len()
            invariant
                i <= self.query.len(),
                joined@ == stem + query_text(self.query_view().subrange(0, i as int)),
            decreases self.query.len() - i,
        {
            let pair = &self.query[i];
            proof {
                let upto = self.query_view().subrange(0, i + 1);
                assert(upto.drop_last() =~= self.query_view().subrange(0, i as int));
                assert(upto.last() == (pair.0@, pair.1@));
            }
            joined.append(pair.0.as_str());
            joined.append("=");
            joined.append(pair.1.as_str());
            joined.append("&");
            i = i + 1;
        }
        proof {
            assert(self.query_view().subrange(0, self.query@.len() as int) =~= self.query_view());
            assert(joined@ =~= build_spec(
                base_url@,
                self.path@,
                self.query_view(),
                self.with_dot_json,
            ));
        }
        joined
    }
}

impl EndpointBuilder {
    /// The URL that a client with this base URL sends a request to.
    pub fn url(&self, base_url: &str) -> (url: String)
        ensures
            url@ == url_spec(base_url@, self.path@, self.query_view(), self.with_dot_json),
    {
        let path = self.path.as_str();
        proof {
            reveal_strlit("http");
        }
        let absolute = path.unicode_len() >= 4 && path.get_char(0) == 'h' && path.get_char(1)
            == 't' && path.get_char(2) == 't' && path.get_char(3) == 'p';
        proof {
            if path@.len() >= 4 {
                if absolute {
                    assert(path@.subrange(0, 4) =~= "http"@);
                } else {
                    assert(path@.subrange(0, 4)[0] == path@[0]);
                    assert(path@.subrange(0, 4)[1] == path@[1]);
                    assert(path@.subrange(0, 4)[2] == path@[2]);
                    assert(path@.subrange(0, 4)[3] == path@[3]);
                }
            }
        }
        if absolute {
            let bare = EndpointBuilder {
                path: String::new(),
                query: clone_pairs(&self.query),
                with_dot_json: self.with_dot_json,
            };
            bare.build(path)
        } else {
            self.build(base_url)
        }
    }
}

/// Copies a list of pairs.
pub fn clone_pairs(pairs: &Vec<(String, String)>) -> (r: Vec<(String, String)>)
    ensures
        pairs_view(r@) == pairs_view(pairs@),
{
    let mut out: Vec<(String, String)> = Vec::new();
    let mut i: usize = 0;
    while i < pairs.len()
        invariant
            i <= pairs.len(),
            out@.len() == i,
            forall|k: int|
                0 <= k < i ==> (#[trigger] out@[k]).0@ == pairs@[k].0@ && out@[k].1@
                    == pairs@[k].1@,
        decreases pairs.len() - i,
    {
        out.push((pairs[i].0.clone(), pairs[i].1.clone()));
        i = i + 1;
    }
    proof {
        assert(pairs_view(out@) =~= pairs_view(pairs@));
    }
    out
}

/// The endpoint under a subreddit: the path `r/NAME/`.
pub fn build_subreddit(name: &str) -> (r: EndpointBuilder)
    ensures
        r.path@ == "r/"@ + name@ + "/"@,
        r.query@.len() == 0,
        r.with_dot_json,
{
    let mut path = String::from_str("r/");
    path.append(name);
    path.append("/");
    EndpointBuilder { path, query: Vec::new(), with_dot_json: true }
}

/// With the suffix asked for and no query, a URL ends in `/.json`; with a
/// query it is what stands before the suffix, then `/.json?` and the query
/// pairs. An empty path gives the base URL followed by `/.json`.
pub proof fn lemma_build_dot_json(
    base: Seq<char>,
    path: Seq<char>,
    query: Seq<(Seq<char>, Seq<char>)>,
)
    ensures
        query.len() == 0 ==> ends_with(build_spec(base, path, query, true), "/.json"@),
        query.len() > 0 ==> build_spec(base, path, query, true) == build_spec(
            base,
            path,
            Seq::empty(),
            true,
        ) + "?"@ + query_text(query),
        path.len() == 0 ==> build_spec(base, path, Seq::empty(), true) == base + "/.json"@,
        path.len() == 0 && query.len() > 0 ==> build_spec(base, path, query, true) == base
            + "/.json?"@ + query_text(query),
{
    reveal_strlit("/.json");
    reveal_strlit("/.json?");
    reveal_strlit(".json");
    reveal_strlit("/");
    reveal_strlit("?");
    let plain = build_spec(base, path, Seq::empty(), true);
    let head = if path.len() == 0 || path[0] == '/' {
        base + path
    } else {
        base + "/"@ + path
    };
    assert(plain == head + "/"@ + ".json"@);
    assert("/"@ + ".json"@ =~= "/.json"@);
    assert(plain =~= head + "/.json"@);
    assert(plain.subrange(plain.len() - 6, plain.len() as int) =~= "/.json"@);
    if path.len() == 0 {
        assert(head =~= base);
        assert(plain =~= base + "/.json"@);
        if query.len() > 0 {
            assert(build_spec(base, path, query, true) =~= base + "/.json?"@ + query_text(query));
        }
    }
}

/// The query pairs stand in the URL in the order in which they were added:
/// adding a pair appends `key=value&` to the query text.
pub proof fn lemma_query_text_push(
    query: Seq<(Seq<char>, Seq<char>)>,
    key: Seq<char>,
    value: Seq<char>,
)
    ensures
        query_text(query.push((key, value))) == query_text(query) + key + "="@ + value + "&"@,
{
    assert(query.push((key, value)).drop_last() =~= query);
}

} // verus!
