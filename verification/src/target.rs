//! The URL that a request is sent to: the request's URL, parsed, with the request's query
//! pairs added to its query string.

use crate::request::pairs_view;
use vstd::prelude::*;
use vstd::utf8::encode_utf8;

verus! {

/// A parsed URL of the `url` crate, carried as it is.
#[verifier::external_type_specification]
#[verifier::external_body]
pub struct ExUrl(url::Url);

/// The reason why the `url` crate could not parse a text, carried as it is.
#[verifier::external_type_specification]
#[verifier::external_body]
pub struct ExParseError(url::ParseError);

/// The text of a URL: what `url::Url::as_str` returns for it.
pub uninterp spec fn url_text(url: url::Url) -> Seq<char>;

/// Whether the URL keeps the places where its query and its fragment begin as
/// `url::Url::parse` finds them in the URL's own text. A URL that was changed through one of
/// its setters may keep them otherwise, and then its text alone does not say what a call on
/// it does.
pub uninterp spec fn parsed_offsets(url: url::Url) -> bool;

/// The words in which a parse failure describes itself: what its `Display` writes.
pub uninterp spec fn parse_error_text(why: url::ParseError) -> Seq<char>;

/// What `url::Url::parse` makes of a text: the text of the parsed URL, or the description
/// of the failure.
pub uninterp spec fn url_parse(input: Seq<char>) -> Result<Seq<char>, Seq<char>>;

/// For a URL with text `text` that keeps its query and fragment as the parser finds them:
/// its text after `url::Url::query_pairs_mut` has been called on it and the serializer it
/// returned dropped with nothing added. That is the URL with a query string, empty if it
/// had none.
pub uninterp spec fn query_opened(text: Seq<char>) -> Seq<char>;

/// For a URL with text `text` that keeps its query and fragment as the parser finds them:
/// its text after `append_pair(key, value)` on its `query_pairs_mut`. That is the pair,
/// form-urlencoded, after the query string that was there.
pub uninterp spec fn pair_appended(text: Seq<char>, key: Seq<char>, value: Seq<char>) -> Seq<
    char,
>;

/// The number of bytes that `text` takes as a Rust string.
pub open spec fn byte_len(text: Seq<char>) -> nat {
    encode_utf8(text).len()
}

/// The longest URL text, in bytes, that the `url` crate can hold.
pub const MAX_URL_BYTES: u32 = 0xffff_ffff;

/// `url::Url::parse` depends on nothing but its input: it yields the URL whose text
/// `url_parse` names, or fails with the error whose description `url_parse` names. The URL
/// it yields keeps its query and fragment where parsing its text again finds them: the
/// parser ends the path at the first `?` or `#` and escapes both wherever else they stand
/// before the fragment.
pub assume_specification[ url::Url::parse ](input: &str) -> (parsed: Result<
    url::Url,
    url::ParseError,
>)
    ensures
        match parsed {
            Ok(url) => url_parse(input@) == Ok::<Seq<char>, Seq<char>>(url_text(url))
                && parsed_offsets(url),
            Err(why) => url_parse(input@) == Err::<Seq<char>, Seq<char>>(parse_error_text(why)),
        },
;

/// `url::Url::as_str` returns the text of the URL.
pub assume_specification[ url::Url::as_str ](url: &url::Url) -> (text: &str)
    ensures
        text@ == url_text(*url),
;

/// Calls `url::Url::query_pairs_mut` and drops the serializer it returns. The call reads
/// the URL's text and the places it keeps for query and fragment, and nothing else: it
/// gives the URL a query string if it had none and puts a fragment back behind it. It
/// writes at most one `?`, where the query begins, so the places are kept as the parser
/// finds them. It panics where an offset no longer fits 32 bits, which the bound on the
/// text excludes.
#[verifier::external_body]
fn open_query(url: &mut url::Url)
    requires
        parsed_offsets(*old(url)),
        byte_len(url_text(*old(url))) < MAX_URL_BYTES,
    ensures
        parsed_offsets(*final(url)),
        url_text(*final(url)) == query_opened(url_text(*old(url))),
{
    url.query_pairs_mut();
}

/// Calls `append_pair` on the serializer of `url::Url::query_pairs_mut`, which reads the
/// URL's text and the places it keeps for query and fragment, and nothing else. It writes
/// the pair behind the query string, each byte of key and value as one or three bytes, with
/// one separator before the pair where one is needed and one between key and value; none
/// of what it writes is a `?` or a `#`, so the places are kept as the parser finds them.
/// The bound keeps every offset within 32 bits, beyond which the call panics.
#[verifier::external_body]
fn append_pair(url: &mut url::Url, key: &str, value: &str)
    requires
        parsed_offsets(*old(url)),
        pair_fits(url_text(*old(url)), key@, value@),
    ensures
        parsed_offsets(*final(url)),
        url_text(*final(url)) == pair_appended(url_text(*old(url)), key@, value@),
{
    url.query_pairs_mut().append_pair(key, value);
}

/// Writes a parse failure of the `url` crate out through its `Display`.
#[verifier::external_body]
fn describe_parse_error(why: &url::ParseError) -> (text: String)
    ensures
        text@ == parse_error_text(*why),
{
    why.to_string()
}

/// Whether a URL of text `text` has room for the pair by an estimate that is never too
/// low: three bytes for each byte of key and value, and two for the separators, within the
/// longest text a URL can have. A pair that this refuses might still have fitted.
pub open spec fn pair_fits(text: Seq<char>, key: Seq<char>, value: Seq<char>) -> bool {
    byte_len(text) + 3 * byte_len(key) + 3 * byte_len(value) + 2 <= MAX_URL_BYTES
}

/// The URL text after the pairs have been appended one by one, first pair first, or `None`
/// if, when its turn comes, one of them has no room by the estimate of `pair_fits`.
pub open spec fn pairs_appended(text: Seq<char>, pairs: Seq<(Seq<char>, Seq<char>)>) -> Option<
    Seq<char>,
>
    decreases pairs.len(),
{
    if pairs.len() == 0 {
        Some(text)
    } else if pair_fits(text, pairs[0].0, pairs[0].1) {
        pairs_appended(pair_appended(text, pairs[0].0, pairs[0].1), pairs.drop_first())
    } else {
        None
    }
}

/// The text of a parsed URL after its query string has been opened and the pairs appended
/// to it in order, or `None` if the URL is as long as a URL can be or a pair has no room
/// by the estimate of `pair_fits`.
pub open spec fn query_merged(text: Seq<char>, pairs: Seq<(Seq<char>, Seq<char>)>) -> Option<
    Seq<char>,
> {
    if byte_len(text) < MAX_URL_BYTES {
        pairs_appended(query_opened(text), pairs)
    } else {
        None
    }
}

/// What is reported when no room is found in the URL for its query pairs.
pub open spec fn too_long_text() -> Seq<char> {
    "URLs more than 4 GB are not supported"@
}

/// The target of a request with URL `url` and query pairs `pairs`: the text of the parsed
/// URL with the pairs merged into its query string, or the words that say why there is
/// none: the URL as it was given, a colon and a space, and the reason.
pub open spec fn target_of(url: Seq<char>, pairs: Seq<(Seq<char>, Seq<char>)>) -> Result<
    Seq<char>,
    Seq<char>,
> {
    match url_parse(url) {
        Ok(text) => match query_merged(text, pairs) {
            Some(merged) => Ok(merged),
            None => Err(url + ": "@ + too_long_text()),
        },
        Err(why) => Err(url + ": "@ + why),
    }
}

/// The number of bytes of a text.
fn text_bytes(text: &str) -> (count: usize)
    ensures
        count == byte_len(text@),
{
    text.as_bytes().len()
}

/// A URL as `url::Url::parse` made it, with nothing changed since but by `merge_query`. Its
/// view is its text.
#[derive(Debug)]
pub struct ParsedUrl {
    url: url::Url,
}

impl View for ParsedUrl {
    type V = Seq<char>;

    closed spec fn view(&self) -> Seq<char> {
        url_text(self.url)
    }
}

impl ParsedUrl {
    /// The URL keeps its query and fragment where the parser finds them in its text.
    #[verifier::type_invariant]
    spec fn as_parsed(self) -> bool {
        parsed_offsets(self.url)
    }

    /// Parses a text as a URL, or says why it is none.
    pub fn parse(input: &str) -> (parsed: Result<ParsedUrl, url::ParseError>)
        ensures
            match parsed {
                Ok(url) => url_parse(input@) == Ok::<Seq<char>, Seq<char>>(url@),
                Err(why) => url_parse(input@) == Err::<Seq<char>, Seq<char>>(
                    parse_error_text(why),
                ),
            },
    {
        match url::Url::parse(input) {
            Ok(url) => Ok(ParsedUrl { url }),
            Err(why) => Err(why),
        }
    }

    /// The text of the URL.
    pub fn as_str(&self) -> (text: &str)
        ensures
            text@ == self@,
    {
        self.url.as_str()
    }
}

/// Merges the query pairs into the query string of a parsed URL: every pair, in the order
/// of the list, pairs with equal keys included, behind whatever query the URL already has.
/// Returns `None`, and no URL, exactly if `query_merged` is `None`: the room that a pair
/// needs is estimated at three bytes for each of its bytes, so a URL that would have ended
/// just within the longest text that a URL can have may be refused.
pub fn merge_query(url: ParsedUrl, query: &Vec<(String, String)>) -> (merged: Option<ParsedUrl>)
    ensures
        match merged {
            Some(done) => query_merged(url@, pairs_view(query@)) == Some(done@),
            None => query_merged(url@, pairs_view(query@)) is None,
        },
{
    proof {
        use_type_invariant(&url);
    }
    let mut current = url.url;
    if text_bytes(current.as_str()) >= MAX_URL_BYTES as usize {
        return None;
    }
    open_query(&mut current);
    let ghost pairs = pairs_view(query@);
    let ghost opened = url_text(current);
    assert(pairs.skip(0) =~= pairs);
    let mut i: usize = 0;
    while i < query.len()
        invariant
            i <= query.len(),
            pairs == pairs_view(query@),
            parsed_offsets(current),
            query_merged(url@, pairs) == pairs_appended(opened, pairs),
            pairs_appended(opened, pairs) == pairs_appended(
                url_text(current),
                pairs.skip(i as int),
            ),
        decreases query.len() - i,
    {
        let key: &str = query[i].0.as_str();
        let value: &str = query[i].1.as_str();
        let ghost rest = pairs.skip(i as int);
        assert(rest[0] == (key@, value@));
        let room: u128 = text_bytes(current.as_str()) as u128 + 3 * (text_bytes(key) as u128)
            + 3 * (text_bytes(value) as u128) + 2;
        if room > MAX_URL_BYTES as u128 {
            return None;
        }
        append_pair(&mut current, key, value);
        assert(rest.drop_first() =~= pairs.skip(i + 1));
        i += 1;
    }
    assert(pairs.skip(i as int) =~= Seq::empty());
    Some(ParsedUrl { url: current })
}

/// The text of the invalid-URL error for the URL `url` that failed to parse for the reason
/// `why`: the URL as it was given, a colon and a space, and the reason.
pub fn invalid_url_text(url: &str, why: &str) -> (text: String)
    ensures
        text@ == url@ + ": "@ + why@,
{
    let mut text = url.to_owned();
    text.append(": ");
    text.append(why);
    text
}

/// Finds the target of a request: parses `url` and merges the query pairs into its query
/// string. Fails, before anything is sent, exactly if `target_of` is an error: the URL does
/// not parse, or `merge_query` finds no room for the pairs, by its estimate. The error is
/// the text of the invalid-URL error.
pub fn resolve_target(url: &str, query: &Vec<(String, String)>) -> (target: Result<String, String>)
    ensures
        match target {
            Ok(text) => target_of(url@, pairs_view(query@)) == Ok::<Seq<char>, Seq<char>>(text@),
            Err(text) => target_of(url@, pairs_view(query@)) == Err::<Seq<char>, Seq<char>>(
                text@,
            ),
        },
{
    match ParsedUrl::parse(url) {
        Ok(parsed) => match merge_query(parsed, query) {
            Some(merged) => Ok(merged.as_str().to_owned()),
            None => Err(invalid_url_text(url, "URLs more than 4 GB are not supported")),
        },
        Err(why) => {
            let reason = describe_parse_error(&why);
            Err(invalid_url_text(url, reason.as_str()))
        },
    }
}

} // verus!
