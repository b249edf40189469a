//! The API client's addressing: checking the configured base URL and
//! building endpoint URLs from path segments.  URL parsing and path editing
//! are the `url` crate's (through `reqwest::Url`); a URL is held here as the
//! plain values the client reads from it.
use crate::error::ApiClientError;
use crate::text::{chars_of, ends_with_char, join2, join3, string_from_chars, to_owned_string};
use vstd::prelude::*;

verus! {

/// A parsed URL, read back as plain values.
#[derive(Clone, Debug)]
pub struct UrlParts {
    /// The whole URL as the `url` crate writes it.
    pub text: String,
    pub scheme: String,
    pub host: Option<String>,
    pub path: String,
    pub cannot_be_a_base: bool,
}

impl UrlParts {
    pub open spec fn view_of(self) -> (Seq<char>, Seq<char>, Option<Seq<char>>, Seq<char>, bool) {
        (
            self.text@,
            self.scheme@,
            match self.host {
                Some(h) => Some(h@),
                None => None,
            },
            self.path@,
            self.cannot_be_a_base,
        )
    }

    pub fn as_str(&self) -> (r: &str)
        ensures
            r@ == self.text@,
    {
        self.text.as_str()
    }
}

pub open spec fn parts_view(r: Option<UrlParts>) -> Option<(Seq<char>, Seq<char>, Option<Seq<char>>, Seq<char>, bool)> {
    match r {
        Some(p) => Some(p.view_of()),
        None => None,
    }
}

/// The URL that `url::Url::parse` makes of a text, read back as (text,
/// scheme, host, path, cannot-be-a-base); `None` when it rejects the text.
pub uninterp spec fn url_parse_view(text: Seq<char>) -> Option<(Seq<char>, Seq<char>, Option<Seq<char>>, Seq<char>, bool)>;

/// `url::Url::parse`, read back as plain values.  Claimed: the result is a
/// function of the text, named `url_parse_view`; the URL standard is not
/// restated.
#[verifier::external_body]
fn parse_url(text: &str) -> (r: Option<UrlParts>)
    ensures
        parts_view(r) == url_parse_view(text@),
{
    let u = reqwest::Url::parse(text).ok()?;
    let (text, scheme, path) = (u.as_str().to_string(), u.scheme().to_string(), u.path().to_string());
    let host = u.host_str().map(|h| h.to_string());
    Some(UrlParts { text, scheme, host, path, cannot_be_a_base: u.cannot_be_a_base() })
}

/// The URL that `url::Url::parse` makes of `text`, after
/// `url::Url::set_path(path)`.
pub uninterp spec fn url_set_path_view(text: Seq<char>, path: Seq<char>) -> Option<(Seq<char>, Seq<char>, Option<Seq<char>>, Seq<char>, bool)>;

/// `url::Url::parse` followed by `url::Url::set_path`, read back as plain
/// values.  Claimed: the result is a function of the two texts, named
/// `url_set_path_view`, and it is there whenever the text parses
/// (`set_path` cannot fail).
#[verifier::external_body]
fn url_with_path(text: &str, path: &str) -> (r: Option<UrlParts>)
    ensures
        parts_view(r) == url_set_path_view(text@, path@),
        url_parse_view(text@) is Some ==> r is Some,
{
    let mut u = reqwest::Url::parse(text).ok()?;
    u.set_path(path);
    let (text, scheme, path) = (u.as_str().to_string(), u.scheme().to_string(), u.path().to_string());
    let host = u.host_str().map(|h| h.to_string());
    Some(UrlParts { text, scheme, host, path, cannot_be_a_base: u.cannot_be_a_base() })
}

/// The URL written as `text` after dropping an empty last path segment and
/// appending the segments (`PathSegmentsMut::pop_if_empty` then `extend`);
/// `None` when the URL cannot be a base.
pub uninterp spec fn url_extend_view(text: Seq<char>, segments: Seq<Seq<char>>) -> Option<(Seq<char>, Seq<char>, Option<Seq<char>>, Seq<char>, bool)>;

/// `url::Url::path_segments_mut` followed by `pop_if_empty` and `extend`
/// (each segment percent-encoded by the `url` crate).  Claimed: the result
/// is a function of the text and the segments, named `url_extend_view`.
#[verifier::external_body]
fn url_extend_segments(text: &str, segments: &Vec<String>) -> (r: Option<UrlParts>)
    ensures
        parts_view(r) == url_extend_view(text@, segments@.map_values(|s: String| s@)),
{
    let mut u = reqwest::Url::parse(text).ok()?;
    u.path_segments_mut().ok()?.pop_if_empty().extend(segments.iter());
    let (text, scheme, path) = (u.as_str().to_string(), u.scheme().to_string(), u.path().to_string());
    let host = u.host_str().map(|h| h.to_string());
    Some(UrlParts { text, scheme, host, path, cannot_be_a_base: u.cannot_be_a_base() })
}

/// The non-empty runs of characters between `/` separators, in order;
/// `current` is the run being read.
pub open spec fn slash_pieces(s: Seq<char>, current: Seq<char>) -> Seq<Seq<char>>
    decreases s.len(),
{
    if s.len() == 0 {
        if current.len() > 0 {
            seq![current]
        } else {
            seq![]
        }
    } else if s[0] == '/' {
        (if current.len() > 0 {
            seq![current]
        } else {
            seq![]
        }) + slash_pieces(s.drop_first(), seq![])
    } else {
        slash_pieces(s.drop_first(), current.push(s[0]))
    }
}

/// All the non-empty pieces of the segments, in order.
pub open spec fn endpoint_pieces(segments: Seq<Seq<char>>) -> Seq<Seq<char>>
    decreases segments.len(),
{
    if segments.len() == 0 {
        seq![]
    } else {
        endpoint_pieces(segments.drop_last()) + slash_pieces(segments.last(), seq![])
    }
}

/// Splits a segment at `/` and keeps the non-empty pieces.
fn push_pieces(out: &mut Vec<String>, segment: &str)
    ensures
        final(out)@.map_values(|s: String| s@) == old(out)@.map_values(|s: String| s@)
            + slash_pieces(segment@, seq![]),
{
    let v = chars_of(segment);
    let mut current: Vec<char> = Vec::new();
    let mut i: usize = 0;
    assert(v@.skip(0) =~= v@);
    while i < v.len()
        invariant
            i <= v@.len(),
            v@ == segment@,
            out@.map_values(|s: String| s@) + slash_pieces(v@.skip(i as int), current@)
                == old(out)@.map_values(|s: String| s@) + slash_pieces(segment@, seq![]),
        decreases v.len() - i,
    {
        let ghost before = out@.map_values(|s: String| s@);
        let ghost rest = v@.skip(i as int);
        assert(rest[0] == v@[i as int]);
        assert(rest.drop_first() =~= v@.skip(i + 1));
        if v[i] == '/' {
            if current.len() > 0 {
                let piece = string_from_chars(current.as_slice());
                out.push(piece);
                assert(out@.map_values(|s: String| s@) =~= before + seq![current@]);
            }
            current = Vec::new();
            assert(current@ =~= Seq::<char>::empty());
        } else {
            current.push(v[i]);
        }
        i = i + 1;
    }
    let ghost before = out@.map_values(|s: String| s@);
    assert(v@.skip(i as int) =~= Seq::<char>::empty());
    if current.len() > 0 {
        let piece = string_from_chars(current.as_slice());
        out.push(piece);
        assert(out@.map_values(|s: String| s@) =~= before + seq![current@]);
    } else {
        assert(before + Seq::<Seq<char>>::empty() =~= before);
    }
}

/// The client's address: a checked `https` base URL.
#[derive(Clone, Debug)]
pub struct ApiClient {
    pub base: UrlParts,
}

/// The message for a base URL that does not parse.
pub open spec fn malformed_message(url: Seq<char>) -> Seq<char> {
    "malformed or invalid API base URL '"@ + url + "'"@
}

/// The message for a base URL whose scheme is not `https`.
pub open spec fn insecure_message(url: Seq<char>) -> Seq<char> {
    "insecure API base URL '"@ + url + "'; scheme must be 'https'"@
}

/// The message for a base URL without a host.
pub open spec fn missing_host_message(url: Seq<char>) -> Seq<char> {
    "invalid API base URL '"@ + url + "'; missing host"@
}

/// What checking a base URL gives: an error message, or the URL with a
/// path that ends in `/`.
pub open spec fn validated(url: Seq<char>, r: Result<UrlParts, String>) -> bool {
    match url_parse_view(url) {
        None => r matches Err(m) && m@ == malformed_message(url),
        Some((text, scheme, host, path, base)) => if scheme != "https"@ {
            r matches Err(m) && m@ == insecure_message(url)
        } else if host is None {
            r matches Err(m) && m@ == missing_host_message(url)
        } else if path.len() > 0 && path.last() == '/' {
            r matches Ok(p) && p.view_of() == (text, scheme, host, path, base)
        } else {
            r matches Ok(p) && url_set_path_view(url, path.push('/')) == Some(p.view_of())
        },
    }
}

impl ApiClient {
    /// Checks a base URL: it must parse, use `https` and name a host; its
    /// path is made to end in `/` so that endpoints extend it.
    pub fn validate_base_url(url: &str) -> (r: Result<UrlParts, String>)
        ensures
            validated(url@, r),
    {
        proof {
            reveal_strlit("https");
            reveal_strlit("malformed or invalid API base URL '");
            reveal_strlit("'");
            reveal_strlit("insecure API base URL '");
            reveal_strlit("'; scheme must be 'https'");
            reveal_strlit("invalid API base URL '");
            reveal_strlit("'; missing host");
        }
        let parsed = match parse_url(url) {
            Some(p) => p,
            None => {
                return Err(join3("malformed or invalid API base URL '", url, "'"));
            },
        };
        let https = to_owned_string("https");
        if parsed.scheme != https {
            return Err(join3("insecure API base URL '", url, "'; scheme must be 'https'"));
        }
        if parsed.host.is_none() {
            return Err(join3("invalid API base URL '", url, "'; missing host"));
        }
        if ends_with_char(parsed.path.as_str(), '/') {
            return Ok(parsed);
        }
        let path = join2(parsed.path.as_str(), "/");
        proof {
            reveal_strlit("/");
            assert(path@ =~= parsed.path@.push('/'));
        }
        match url_with_path(url, path.as_str()) {
            Some(p) => Ok(p),
            None => Err(join3("malformed or invalid API base URL '", url, "'")),
        }
    }

    /// A client for the base URL, or the reason the URL is refused.
    pub fn new(base: &str) -> (r: Result<ApiClient, String>)
        ensures
            validated(
                base@,
                match r {
                    Ok(c) => Ok(c.base),
                    Err(m) => Err(m),
                },
            ),
    {
        match ApiClient::validate_base_url(base) {
            Ok(parts) => Ok(ApiClient { base: parts }),
            Err(m) => Err(m),
        }
    }

    /// The endpoint URL for the path segments: the base path without an
    /// empty last segment, then each non-empty piece of the segments split
    /// at `/`.
    pub fn endpoint_url(&self, segments: &[&str]) -> (r: Result<UrlParts, ApiClientError>)
        ensures
            match url_extend_view(
                self.base.text@,
                endpoint_pieces(segments@.map_values(|s: &str| s@)),
            ) {
                Some(v) => r matches Ok(p) && p.view_of() == v,
                None => r matches Err(ApiClientError::Transport { message }) && message@
                    == "API base URL cannot be used as a path base"@,
            },
    {
        let ghost views = segments@.map_values(|s: &str| s@);
        let mut pieces: Vec<String> = Vec::new();
        let mut i: usize = 0;
        while i < segments.len()
            invariant
                i <= segments@.len(),
                views == segments@.map_values(|s: &str| s@),
                pieces@.map_values(|s: String| s@) == endpoint_pieces(views.take(i as int)),
            decreases segments.len() - i,
        {
            push_pieces(&mut pieces, segments[i]);
            assert(views.take(i + 1).drop_last() =~= views.take(i as int));
            assert(views.take(i + 1).last() == segments@[i as int]@);
            i = i + 1;
        }
        assert(views.take(segments@.len() as int) =~= views);
        match url_extend_segments(self.base.text.as_str(), &pieces) {
            Some(p) => Ok(p),
            None => Err(
                ApiClientError::Transport {
                    message: to_owned_string("API base URL cannot be used as a path base"),
                },
            ),
        }
    }
}

} // verus!
