//! The HTTP transport core: a client handle with a base URL, URL and query
//! construction, and the dispatch of response status codes onto the error
//! taxonomy.
//!
//! The network exchange itself is left to the caller; everything that can be
//! decided from plain values — which URL a request goes to, and what a given
//! status code and body mean — is verified here.

use vstd::prelude::*;

use crate::digits::{dec_str_of, u32_to_dec_string};
use crate::errors::RedCrabError;

verus! {

/// `reqwest::Client` is carried opaquely: the transport owns one and hands
/// it to the caller that performs the exchange; nothing is proved about it.
#[verifier::external_type_specification]
#[verifier::external_body]
pub struct ExReqwestClient(reqwest::Client);

/// What `url::Url::parse` makes of a string: `Some` of the parsed URL's
/// serialization when the string parses as an absolute URL, `None` otherwise.
pub uninterp spec fn url_parse_of(s: Seq<char>) -> Option<Seq<char>>;

/// The serialization of a parsed URL after `url::Url::set_query` replaces
/// its query part; meaningful only for `u` that is a URL's own serialization.
pub uninterp spec fn url_with_query_of(u: Seq<char>, q: Seq<char>) -> Seq<char>;

/// The `application/x-www-form-urlencoded` rendering of a sequence of
/// key-value pairs, as `serde_urlencoded::to_string` produces it.
pub uninterp spec fn urlencoded_of(pairs: Seq<(Seq<char>, Seq<char>)>) -> Seq<char>;

/// The views of a sequence of key-value string pairs.
pub open spec fn pair_views(pairs: Seq<(String, String)>) -> Seq<(Seq<char>, Seq<char>)> {
    pairs.map_values(|p: (String, String)| (p.0@, p.1@))
}

/// Characters that both the form-urlencoded serializer emits and the URL
/// query serializer keeps verbatim: alphanumerics, the unchanged bytes
/// `* - . _`, `+` for an encoded space, `%` of a percent escape and the
/// separators `=` and `&`.
pub open spec fn query_safe_char(c: char) -> bool {
    ||| ('a' <= c && c <= 'z')
    ||| ('A' <= c && c <= 'Z')
    ||| ('0' <= c && c <= '9')
    ||| c == '*'
    ||| c == '-'
    ||| c == '.'
    ||| c == '_'
    ||| c == '+'
    ||| c == '%'
    ||| c == '='
    ||| c == '&'
}

/// Every character of the sequence is query-safe.
pub open spec fn query_safe(s: Seq<char>) -> bool {
    forall|i: int| 0 <= i < s.len() ==> query_safe_char(#[trigger] s[i])
}

/// Relies on `reqwest::Client::builder`: builds a client that sends the two
/// given values as its default `User-Agent` and `Content-Type` headers on
/// every request. An error can come only from header construction or from
/// the client build itself.
#[verifier::external_body]
fn build_client(user_agent: &str, content_type: &str) -> (r: Result<
    reqwest::Client,
    RedCrabError,
>)
    ensures
        r matches Err(e) ==> (e is InvalidHeaderError || e is ReqError),
{
    let ua = reqwest::header::HeaderValue::from_str(user_agent)
        .map_err(|e| RedCrabError::InvalidHeaderError(format!("{}", e)))?;
    let ct = reqwest::header::HeaderValue::from_str(content_type)
        .map_err(|e| RedCrabError::InvalidHeaderError(format!("{}", e)))?;
    let mut headers = reqwest::header::HeaderMap::new();
    headers.insert(reqwest::header::USER_AGENT, ua);
    headers.insert(reqwest::header::CONTENT_TYPE, ct);
    reqwest::Client::builder()
        .default_headers(headers)
        .build()
        .map_err(|e| RedCrabError::ReqError(format!("{}", e)))
}

/// Relies on `url::Url::parse`: `Ok` exactly when the string parses as an
/// absolute URL, returning its serialization; and a URL's serialization
/// parses back to the same URL.
#[verifier::external_body]
fn parse_url_string(s: &str) -> (r: Result<String, RedCrabError>)
    ensures
        match r {
            Ok(u) => url_parse_of(s@) == Some(u@) && url_parse_of(u@) == Some(u@),
            Err(e) => url_parse_of(s@) is None && e is UrlParserError,
        },
{
    match url::Url::parse(s) {
        Ok(u) => Ok(String::from(u)),
        Err(e) => Err(RedCrabError::UrlParserError(format!("{}", e))),
    }
}

/// Relies on `url::Url::set_query`: on a URL's own serialization it replaces
/// the query part; when the serialization has no query or fragment of its own
/// and the new query holds only characters the query serializer keeps
/// verbatim, the result is the serialization, `?`, and the query.
#[verifier::external_body]
fn set_url_query(u: &str, q: &str) -> (r: String)
    requires
        url_parse_of(u@) == Some(u@),
    ensures
        r@ == url_with_query_of(u@, q@),
        !u@.contains('?') && !u@.contains('#') && query_safe(q@) ==> r@ == u@ + seq!['?'] + q@,
{
    match url::Url::parse(u) {
        Ok(mut parsed) => {
            parsed.set_query(Some(q));
            String::from(parsed)
        },
        Err(_) => String::new(),
    }
}

/// Relies on `serde_urlencoded::to_string`: string key-value pairs always
/// serialize, to the form-urlencoded rendering of the pairs, which is made
/// of query-safe characters only.
#[verifier::external_body]
fn urlencode_pairs(pairs: &Vec<(String, String)>) -> (r: String)
    ensures
        r@ == urlencoded_of(pair_views(pairs@)),
        query_safe(r@),
{
    serde_urlencoded::to_string(pairs).unwrap_or_default()
}

/// A handle on the upstream HTTP API: one shared client and the base URL
/// every endpoint name is appended to. Immutable after construction.
pub struct Transport {
    pub client: reqwest::Client,
    pub base_url: String,
}

/// What `get_url` promises of its result, given the base URL and endpoint
/// concatenation `pre` and the optional query pairs.
pub open spec fn get_url_post(
    pre: Seq<char>,
    params: Option<Seq<(String, String)>>,
    r: Result<String, RedCrabError>,
) -> bool {
    match r {
        Ok(u) => {
            &&& url_parse_of(pre) matches Some(norm)
            &&& match params {
                None => u@ == norm,
                Some(q) => {
                    let enc = urlencoded_of(pair_views(q));
                    &&& u@ == url_with_query_of(norm, enc)
                    &&& (!norm.contains('?') && !norm.contains('#') && query_safe(enc) ==> u@
                        == norm + seq!['?'] + enc)
                },
            }
        },
        Err(e) => e is UrlParserError && url_parse_of(pre) is None,
    }
}

impl Transport {
    /// A transport against the default local base URL.
    pub fn new() -> (r: Result<Transport, RedCrabError>)
        ensures
            r matches Ok(t) ==> t.base_url@ == "http://127.0.0.1:8080/api/public/"@,
            r matches Err(e) ==> (e is InvalidHeaderError || e is ReqError),
    {
        let url: String = "http://127.0.0.1:8080/api/public/".to_owned();
        Self::from(url)
    }

    /// A transport against the given base URL, with the fixed default
    /// headers on its client.
    pub fn from(url: String) -> (r: Result<Transport, RedCrabError>)
        ensures
            r matches Ok(t) ==> t.base_url@ == url@,
            r matches Err(e) ==> (e is InvalidHeaderError || e is ReqError),
    {
        let client = match build_client("red-crab", "application/json") {
            Ok(c) => c,
            Err(e) => {
                return Err(e);
            },
        };
        Ok(Transport { client, base_url: url })
    }

    /// The URL a request for `endpoint` goes to: the base URL with the
    /// endpoint name appended, and the form-urlencoded `params`, if any, as
    /// the query string.
    pub fn get_url(&self, endpoint: &str, params: Option<&Vec<(String, String)>>) -> (r: Result<
        String,
        RedCrabError,
    >)
        ensures
            get_url_post(
                self.base_url@ + endpoint@,
                match params {
                    Some(q) => Some(q@),
                    None => None,
                },
                r,
            ),
            r is Ok <==> url_parse_of(self.base_url@ + endpoint@) is Some,
    {
        let joined = self.base_url.clone().concat(endpoint);
        let parsed = match parse_url_string(joined.as_str()) {
            Ok(p) => p,
            Err(e) => {
                return Err(e);
            },
        };
        match params {
            None => Ok(parsed),
            Some(q) => {
                let encoded = urlencode_pairs(q);
                Ok(set_url_query(parsed.as_str(), encoded.as_str()))
            },
        }
    }

    /// The URL construction keeps the inputs readable: when the base URL
    /// and endpoint concatenation is already a URL's own serialization and
    /// free of query and fragment marks, a built URL is exactly that
    /// concatenation — with no `?` when there is no query, and with `?` and
    /// the encoded pairs when there is one and the encoding is query-safe.
    pub proof fn lemma_get_url_shape(
        pre: Seq<char>,
        params: Option<Seq<(String, String)>>,
        r: Result<String, RedCrabError>,
    )
        requires
            get_url_post(pre, params, r),
            url_parse_of(pre) == Some(pre),
            !pre.contains('?'),
            !pre.contains('#'),
            r is Ok,
        ensures
            params is None ==> r->Ok_0@ == pre,
            params matches Some(q) ==> (query_safe(urlencoded_of(pair_views(q))) ==> r->Ok_0@
                == pre + seq!['?'] + urlencoded_of(pair_views(q))),
    {
    }

    /// What a response with the given status code and body text means:
    /// 200 hands the body on for decoding; 500, 503 and 401 map to their
    /// fixed error kinds; 400 wraps the body as an invalid-parameter error;
    /// every other status is an unknown response carrying the status code.
    pub fn response_handler(&self, status: u16, body: String) -> (r: Result<
        String,
        RedCrabError,
    >)
        ensures
            status == 200 ==> (r matches Ok(b) && b@ == body@),
            status == 500 ==> (r matches Err(e) && e is InternalServerError),
            status == 503 ==> (r matches Err(e) && e is ServiceUnavailable),
            status == 401 ==> (r matches Err(e) && e is Unauthorized),
            status == 400 ==> (r matches Err(e) && e matches RedCrabError::InvalidParameter(m)
                && m@ == body@),
            !(status == 200 || status == 500 || status == 503 || status == 401 || status == 400)
                ==> (r matches Err(e) && e matches RedCrabError::UnkownResponse(m) && m@
                == "Received response: "@ + dec_str_of(status as int)),
    {
        match status {
            200u16 => Ok(body),
            500u16 => Err(RedCrabError::InternalServerError),
            503u16 => Err(RedCrabError::ServiceUnavailable),
            401u16 => Err(RedCrabError::Unauthorized),
            400u16 => Err(RedCrabError::InvalidParameter(body)),
            s => {
                let prefix: String = "Received response: ".to_owned();
                let message = prefix.concat(u32_to_dec_string(s as u32).as_str());
                Err(RedCrabError::UnkownResponse(message))
            },
        }
    }
}

} // verus!
