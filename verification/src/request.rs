//! The request value and the builder that assembles it.

use crate::method::HttpMethod;
use crate::text::{
    ends_with_two_slashes, has_final_slash, joined, lemma_join_has_no_double_slash,
    lemma_join_keeps_separator, lone_slash_at, trim_leading_slashes, without_final_slash,
    without_leading_slashes,
};
use vstd::prelude::*;

verus! {

/// A list of name/value pairs as a sequence of pairs of texts, in the order of the list.
pub open spec fn pairs_view(pairs: Seq<(String, String)>) -> Seq<(Seq<char>, Seq<char>)> {
    Seq::new(pairs.len(), |i: int| (pairs[i].0@, pairs[i].1@))
}

/// What a request says: the mathematical value of a request and of a builder.
pub struct RequestView {
    pub method: HttpMethod,
    pub url: Seq<char>,
    pub query: Seq<(Seq<char>, Seq<char>)>,
    pub headers: Seq<(Seq<char>, Seq<char>)>,
    pub body: Option<Seq<u8>>,
}

impl RequestView {
    /// The request for `method` and `url` with no query pair, no header and no body.
    pub open spec fn fresh(method: HttpMethod, url: Seq<char>) -> RequestView {
        RequestView { method, url, query: Seq::empty(), headers: Seq::empty(), body: None }
    }

    /// The same request with `segment` joined to its URL by one slash.
    pub open spec fn with_path(self, segment: Seq<char>) -> RequestView {
        RequestView { url: joined(self.url, segment), ..self }
    }

    /// The same request with one more query pair after those it has.
    pub open spec fn with_query(self, key: Seq<char>, value: Seq<char>) -> RequestView {
        RequestView { query: self.query.push((key, value)), ..self }
    }

    /// The same request with one more header after those it has.
    pub open spec fn with_header(self, key: Seq<char>, value: Seq<char>) -> RequestView {
        RequestView { headers: self.headers.push((key, value)), ..self }
    }

    /// The same request with `body` in place of any body it had.
    pub open spec fn with_body(self, body: Seq<u8>) -> RequestView {
        RequestView { body: Some(body), ..self }
    }

    /// The request after one `with_query` for each pair of `pairs`, first pair first.
    pub open spec fn with_queries(self, pairs: Seq<(Seq<char>, Seq<char>)>) -> RequestView
        decreases pairs.len(),
    {
        if pairs.len() == 0 {
            self
        } else {
            self.with_queries(pairs.drop_last()).with_query(pairs.last().0, pairs.last().1)
        }
    }

    /// The request after one `with_path` for each segment of `segments`, first segment first.
    pub open spec fn with_paths(self, segments: Seq<Seq<char>>) -> RequestView
        decreases segments.len(),
    {
        if segments.len() == 0 {
            self
        } else {
            self.with_paths(segments.drop_last()).with_path(segments.last())
        }
    }

    /// The request after one `with_header` for each pair of `pairs`, first pair first.
    pub open spec fn with_headers(self, pairs: Seq<(Seq<char>, Seq<char>)>) -> RequestView
        decreases pairs.len(),
    {
        if pairs.len() == 0 {
            self
        } else {
            self.with_headers(pairs.drop_last()).with_header(pairs.last().0, pairs.last().1)
        }
    }
}

/// Query pairs accumulate: after any number of `query` calls the request holds the pairs it
/// had, then one pair for each call in the order of the calls, pairs with equal keys
/// included, and nothing else of the request has changed.
pub proof fn lemma_queries_accumulate(start: RequestView, pairs: Seq<(Seq<char>, Seq<char>)>)
    ensures
        start.with_queries(pairs) == (RequestView { query: start.query + pairs, ..start }),
    decreases pairs.len(),
{
    if pairs.len() == 0 {
        assert(start.query + pairs =~= start.query);
    } else {
        lemma_queries_accumulate(start, pairs.drop_last());
        assert((start.query + pairs.drop_last()).push(pairs.last()) =~= start.query + pairs);
    }
}

/// Headers accumulate: after any number of `header` calls the request holds the headers it
/// had, then one header for each call in the order of the calls, headers with equal names
/// included, and nothing else of the request has changed.
pub proof fn lemma_headers_accumulate(start: RequestView, pairs: Seq<(Seq<char>, Seq<char>)>)
    ensures
        start.with_headers(pairs) == (RequestView { headers: start.headers + pairs, ..start }),
    decreases pairs.len(),
{
    if pairs.len() == 0 {
        assert(start.headers + pairs =~= start.headers);
    } else {
        lemma_headers_accumulate(start, pairs.drop_last());
        assert((start.headers + pairs.drop_last()).push(pairs.last()) =~= start.headers
            + pairs);
    }
}

/// A chain of `path` calls only ever appends, and changes nothing but the URL: the URL after
/// the first `count` calls is the beginning of the URL after all of them.
pub proof fn lemma_paths_append(start: RequestView, segments: Seq<Seq<char>>, count: int)
    requires
        0 <= count <= segments.len(),
    ensures
        start.with_paths(segments) == (RequestView {
            url: start.with_paths(segments).url,
            ..start
        }),
        start.with_paths(segments.take(count)).url.len() <= start.with_paths(segments).url.len(),
        start.with_paths(segments).url.take(
            start.with_paths(segments.take(count)).url.len() as int,
        ) == start.with_paths(segments.take(count)).url,
    decreases segments.len(),
{
    let whole = start.with_paths(segments).url;
    if count == segments.len() {
        assert(segments.take(count) =~= segments);
        assert(whole.take(whole.len() as int) =~= whole);
        if segments.len() > 0 {
            lemma_paths_append(start, segments.drop_last(), 0);
        }
    } else {
        let before = segments.drop_last();
        lemma_paths_append(start, before, count);
        assert(before.take(count) =~= segments.take(count));
        lemma_join_keeps_separator(start.with_paths(before).url, segments.last());
        let part = start.with_paths(segments.take(count)).url;
        let mid = start.with_paths(before).url;
        assert(whole.take(part.len() as int) =~= whole.take(mid.len() as int).take(
            part.len() as int,
        ));
    }
}

/// No double slash along a chain of `path` calls: if neither the URL at the start nor any
/// segment, without the slashes it begins with, ends with two slashes, then each call joins
/// its segment by a slash that has no slash before it and none after it, and that slash
/// stays where it is in the URL after all the calls.
pub proof fn lemma_paths_have_no_double_slash(
    start: RequestView,
    segments: Seq<Seq<char>>,
    call: int,
)
    requires
        0 <= call < segments.len(),
        !ends_with_two_slashes(start.url),
        forall|i: int|
            0 <= i < segments.len() ==> !ends_with_two_slashes(
                without_leading_slashes(#[trigger] segments[i]),
            ),
    ensures
        !ends_with_two_slashes(start.with_paths(segments).url),
        lone_slash_at(
            start.with_paths(segments.take(call + 1)).url,
            without_final_slash(start.with_paths(segments.take(call)).url).len() as int,
        ),
        start.with_paths(segments).url.take(
            start.with_paths(segments.take(call + 1)).url.len() as int,
        ) == start.with_paths(segments.take(call + 1)).url,
    decreases segments.len(),
{
    let before = segments.drop_last();
    assert forall|i: int| 0 <= i < before.len() implies !ends_with_two_slashes(
        without_leading_slashes(#[trigger] before[i]),
    ) by {
        assert(before[i] == segments[i]);
    }
    if before.len() > 0 {
        lemma_paths_have_no_double_slash(start, before, 0);
    }
    lemma_join_has_no_double_slash(start.with_paths(before).url, segments.last());
    lemma_paths_append(start, segments, call + 1);
    if call == segments.len() - 1 {
        assert(segments.take(call + 1) =~= segments);
        assert(segments.take(call) =~= before);
    } else {
        lemma_paths_have_no_double_slash(start, before, call);
        assert(before.take(call + 1) =~= segments.take(call + 1));
        assert(before.take(call) =~= segments.take(call));
    }
}

/// An HTTP request ready to be sent.
#[derive(Debug, Clone)]
pub struct HttpRequest {
    /// The HTTP method.
    pub method: HttpMethod,
    /// The URL, as the builder left it: nothing has checked that it parses.
    pub url: String,
    /// Query pairs in the order they were added; a key may occur more than once.
    pub query: Vec<(String, String)>,
    /// Headers in the order they were added; a name may occur more than once.
    pub headers: Vec<(String, String)>,
    /// The body, if one was set.
    pub body: Option<Vec<u8>>,
}

impl View for HttpRequest {
    type V = RequestView;

    open spec fn view(&self) -> RequestView {
        RequestView {
            method: self.method,
            url: self.url@,
            query: pairs_view(self.query@),
            headers: pairs_view(self.headers@),
            body: match self.body {
                Some(bytes) => Some(bytes@),
                None => None,
            },
        }
    }
}

/// Collects the parts of a request, one call at a time.
#[derive(Debug, Clone)]
pub struct HttpRequestBuilder {
    method: HttpMethod,
    url: String,
    query: Vec<(String, String)>,
    headers: Vec<(String, String)>,
    body: Option<Vec<u8>>,
}

impl View for HttpRequestBuilder {
    type V = RequestView;

    closed spec fn view(&self) -> RequestView {
        RequestView {
            method: self.method,
            url: self.url@,
            query: pairs_view(self.query@),
            headers: pairs_view(self.headers@),
            body: match self.body {
                Some(bytes) => Some(bytes@),
                None => None,
            },
        }
    }
}

impl HttpRequestBuilder {
    /// Starts a request for `method` and `url` with no query pair, no header and no body.
    pub fn new(method: HttpMethod, url: &str) -> (builder: Self)
        ensures
            builder@ == RequestView::fresh(method, url@),
    {
        let builder = HttpRequestBuilder {
            method,
            url: url.to_owned(),
            query: Vec::new(),
            headers: Vec::new(),
            body: None,
        };
        assert(pairs_view(builder.query@) =~= Seq::empty());
        assert(pairs_view(builder.headers@) =~= Seq::empty());
        builder
    }

    /// Appends a path segment to the URL with exactly one slash between the two, whether or
    /// not the URL ends with a slash and whether or not the segment begins with slashes.
    pub fn path(self, segment: &str) -> (builder: Self)
        ensures
            builder@ == self@.with_path(segment@),
    {
        let mut builder = self;
        if !has_final_slash(builder.url.as_str()) {
            builder.url.append("/");
            proof {
                reveal_strlit("/");
                assert(builder.url@ =~= self.url@ + seq!['/']);
            }
        } else {
            assert(self.url@ =~= self.url@.drop_last() + seq!['/']);
        }
        builder.url.append(trim_leading_slashes(segment));
        assert(builder.url@ =~= joined(self.url@, segment@));
        builder
    }

    /// Adds a query pair after those already there; an equal key overwrites nothing.
    pub fn query(self, key: &str, value: &str) -> (builder: Self)
        ensures
            builder@ == self@.with_query(key@, value@),
    {
        let mut builder = self;
        builder.query.push((key.to_owned(), value.to_owned()));
        assert(pairs_view(builder.query@) =~= pairs_view(self.query@).push((key@, value@)));
        builder
    }

    /// Adds a header after those already there; an equal name overwrites nothing.
    pub fn header(self, key: &str, value: &str) -> (builder: Self)
        ensures
            builder@ == self@.with_header(key@, value@),
    {
        let mut builder = self;
        builder.headers.push((key.to_owned(), value.to_owned()));
        assert(pairs_view(builder.headers@) =~= pairs_view(self.headers@).push((key@, value@)));
        builder
    }

    /// Sets the body, in place of any body set before.
    pub fn body(self, body: Vec<u8>) -> (builder: Self)
        ensures
            builder@ == self@.with_body(body@),
    {
        let mut builder = self;
        builder.body = Some(body);
        builder
    }

    /// Hands out the request that the calls so far describe. Nothing is checked here: a URL
    /// that does not parse is found when the request is sent.
    pub fn build(self) -> (request: HttpRequest)
        ensures
            request@ == self@,
    {
        HttpRequest {
            method: self.method,
            url: self.url,
            query: self.query,
            headers: self.headers,
            body: self.body,
        }
    }
}

} // verus!
