use vstd::prelude::*;
use vstd::string::StrSliceExecFns;
use crate::error::FetchError;

verus! {

#[verifier::external_type_specification]
#[verifier::external_body]
pub struct ExMethod(http::Method);

#[verifier::external_type_specification]
#[verifier::external_body]
pub struct ExHeaderName(http::HeaderName);

#[verifier::external_type_specification]
#[verifier::external_body]
pub struct ExHeaderValue(http::HeaderValue);

#[verifier::external_type_specification]
#[verifier::external_body]
pub struct ExUrl(url::Url);

/// A token character of the HTTP grammar: a letter, a digit, or one of
/// `! # $ % & ' * + - . ^ _ ` | ~`.
pub open spec fn is_tchar(c: char) -> bool {
    let n = c as u32;
    ||| 0x61 <= n <= 0x7a
    ||| 0x41 <= n <= 0x5a
    ||| 0x30 <= n <= 0x39
    ||| n == 0x21 || n == 0x23 || n == 0x24 || n == 0x25 || n == 0x26 || n == 0x27
    ||| n == 0x2a || n == 0x2b || n == 0x2d || n == 0x2e
    ||| n == 0x5e || n == 0x5f || n == 0x60 || n == 0x7c || n == 0x7e
}

/// A non-empty run of token characters: what a method may be.
pub open spec fn is_token(s: Seq<char>) -> bool {
    s.len() > 0 && forall|i: int| 0 <= i < s.len() ==> #[trigger] is_tchar(s[i])
}

/// The longest header name accepted, in bytes (all its characters are ASCII).
pub const MAX_HEADER_NAME_LEN: usize = 65535;

/// A header name: a token of at most `MAX_HEADER_NAME_LEN` characters.
pub open spec fn is_header_name(s: Seq<char>) -> bool {
    is_token(s) && s.len() <= MAX_HEADER_NAME_LEN
}

/// A character allowed in a header value: a tab, or anything from the space
/// up but DEL. Characters beyond ASCII encode as bytes of 128 and more, which
/// are all allowed.
pub open spec fn is_value_char(c: char) -> bool {
    c as u32 == 0x09 || (c as u32 >= 0x20 && c as u32 != 0x7f)
}

/// A header value: every character allowed.
pub open spec fn is_header_value(s: Seq<char>) -> bool {
    forall|i: int| 0 <= i < s.len() ==> #[trigger] is_value_char(s[i])
}

/// A request header pair that the header grammar accepts.
pub open spec fn is_header_pair(h: (Seq<char>, Seq<char>)) -> bool {
    is_header_name(h.0) && is_header_value(h.1)
}

/// The scheme of the absolute URL that `s` parses to under the WHATWG URL
/// rules, or `None` where `s` is no absolute URL.
pub uninterp spec fn url_scheme_of(s: Seq<char>) -> Option<Seq<char>>;

/// The two schemes a fetch may use.
pub open spec fn is_web_scheme(s: Seq<char>) -> bool {
    s =~= seq!['h', 't', 't', 'p'] || s =~= seq!['h', 't', 't', 'p', 's']
}

/// Relies on http::Method::from_bytes: it accepts exactly the non-empty
/// strings of token characters; and on http::Method::as_str, which gives the
/// parsed method's text back unchanged.
#[verifier::external_body]
fn parse_method(s: &str) -> (r: Option<(http::Method, String)>)
    ensures
        r is Some <==> is_token(s@),
        r matches Some(p) ==> p.1@ == s@,
{
    http::Method::from_bytes(s.as_bytes()).ok().map(|m| {
        let text = m.as_str().to_string();
        (m, text)
    })
}

/// Relies on http::HeaderName::from_bytes: it accepts exactly the non-empty
/// token strings of at most 65535 bytes.
#[verifier::external_body]
fn parse_header_name(s: &str) -> (r: Option<http::HeaderName>)
    ensures
        r is Some <==> is_header_name(s@),
{
    http::HeaderName::from_bytes(s.as_bytes()).ok()
}

/// Relies on http::HeaderValue::from_str: it accepts exactly the strings whose
/// bytes are all tabs or at least 32, DEL excepted.
#[verifier::external_body]
fn parse_header_value(s: &str) -> (r: Option<http::HeaderValue>)
    ensures
        r is Some <==> is_header_value(s@),
{
    http::HeaderValue::from_str(s).ok()
}

/// Relies on url::Url::parse, and on url::Url::scheme for the parsed value's
/// scheme; both depend on the text alone.
#[verifier::external_body]
fn parse_url(s: &str) -> (r: Option<(url::Url, String)>)
    ensures
        r is None <==> url_scheme_of(s@) is None,
        r matches Some(p) ==> url_scheme_of(s@) == Some(p.1@),
{
    url::Url::parse(s).ok().map(|u| {
        let scheme = u.scheme().to_string();
        (u, scheme)
    })
}

/// Whether `s` is `http` or `https`.
pub fn is_http_scheme(s: &str) -> (r: bool)
    ensures
        r == is_web_scheme(s@),
{
    let n = s.unicode_len();
    if n != 4 && n != 5 {
        return false;
    }
    let ok = s.get_char(0) == 'h' && s.get_char(1) == 't' && s.get_char(2) == 't'
        && s.get_char(3) == 'p' && (n == 4 || s.get_char(4) == 's');
    proof {
        if ok && n == 4 {
            assert(s@ =~= seq!['h', 't', 't', 'p']);
        }
        if ok && n == 5 {
            assert(s@ =~= seq!['h', 't', 't', 'p', 's']);
        }
        if is_web_scheme(s@) {
            if n == 4 {
                assert(s@[0] == seq!['h', 't', 't', 'p'][0]);
                assert(s@[1] == seq!['h', 't', 't', 'p'][1]);
                assert(s@[2] == seq!['h', 't', 't', 'p'][2]);
                assert(s@[3] == seq!['h', 't', 't', 'p'][3]);
            } else {
                assert(s@[0] == seq!['h', 't', 't', 'p', 's'][0]);
                assert(s@[1] == seq!['h', 't', 't', 'p', 's'][1]);
                assert(s@[2] == seq!['h', 't', 't', 'p', 's'][2]);
                assert(s@[3] == seq!['h', 't', 't', 'p', 's'][3]);
                assert(s@[4] == seq!['h', 't', 't', 'p', 's'][4]);
            }
        }
    }
    ok
}

/// What the caller hands to a fetch.
pub struct FetchArgs {
    /// The method; `GET` where absent.
    pub method: Option<String>,
    pub url: String,
    pub headers: Vec<(String, String)>,
    /// A client made earlier; the process-wide default client where absent.
    pub client_rid: Option<u32>,
}

/// A fetch whose method, URL, scheme, body and headers have been checked,
/// awaiting the permission decision for its URL. Only `validate_fetch` makes
/// one.
pub struct FetchTarget {
    method: http::Method,
    method_text: Ghost<Seq<char>>,
    url: url::Url,
    headers: Vec<(http::HeaderName, http::HeaderValue)>,
    body: Option<Vec<u8>>,
}

impl FetchTarget {
    /// The text of the parsed method.
    pub closed spec fn method_text(&self) -> Seq<char> {
        self.method_text@
    }

    /// The parsed method; its text is `method_text`.
    pub closed spec fn method_value(&self) -> http::Method {
        self.method
    }

    /// The parsed URL.
    pub closed spec fn url_value(&self) -> url::Url {
        self.url
    }

    /// The typed request headers.
    pub closed spec fn headers_value(&self) -> Seq<(http::HeaderName, http::HeaderValue)> {
        self.headers@
    }

    /// The request body.
    pub closed spec fn body_value(&self) -> Option<Vec<u8>> {
        self.body
    }

    /// The parsed URL, for the permission policy to judge.
    pub fn url(&self) -> (r: &url::Url)
        ensures
            *r == self.url_value(),
    {
        &self.url
    }

    /// The checked method.
    pub fn method(&self) -> (r: &http::Method)
        ensures
            *r == self.method_value(),
    {
        &self.method
    }

    /// Takes the target apart into method, URL, headers and body.
    pub fn into_parts(self) -> (r: (
        http::Method,
        url::Url,
        Vec<(http::HeaderName, http::HeaderValue)>,
        Option<Vec<u8>>,
    ))
        ensures
            r.0 == self.method_value(),
            r.1 == self.url_value(),
            r.2@ == self.headers_value(),
            r.3 == self.body_value(),
    {
        (self.method, self.url, self.headers, self.body)
    }
}

/// The method a fetch uses when none is given.
pub open spec fn default_method() -> Seq<char> {
    seq!['G', 'E', 'T']
}

/// The method text that a fetch uses: the given one, else `GET`.
pub open spec fn method_or_default(method: Option<Seq<char>>) -> Seq<char> {
    match method {
        Some(m) => m,
        None => default_method(),
    }
}

/// The first failure among method, URL, scheme, number of body chunks and
/// headers, in that order; `None` where all are good.
pub open spec fn target_error(
    method: Option<Seq<char>>,
    url: Seq<char>,
    n_chunks: nat,
    headers: Seq<(String, String)>,
) -> Option<FetchError> {
    if method matches Some(m) && !is_token(m) {
        Some(FetchError::MalformedInput)
    } else {
        match url_scheme_of(url) {
            None => Some(FetchError::MalformedInput),
            Some(scheme) => if !is_web_scheme(scheme) {
                Some(FetchError::UnsupportedScheme)
            } else if n_chunks > 1 {
                Some(FetchError::MalformedInput)
            } else if !headers_ok(headers) {
                Some(FetchError::MalformedHeader)
            } else {
                None
            },
        }
    }
}

/// The method as text, where one was given.
pub open spec fn method_view(m: Option<String>) -> Option<Seq<char>> {
    match m {
        Some(s) => Some(s@),
        None => None,
    }
}

/// The body that the chunks give: none for no chunk, else the first.
pub open spec fn body_of(chunks: Seq<Vec<u8>>) -> Option<Vec<u8>> {
    if chunks.len() == 0 {
        None
    } else {
        Some(chunks[0])
    }
}

/// Checks the method (default `GET`), parses the URL, checks its scheme,
/// the number of body chunks and the headers. Nothing else is consulted:
/// this step comes before any permission check.
pub fn validate_fetch(args: &FetchArgs, chunks: Vec<Vec<u8>>) -> (r: Result<FetchTarget, FetchError>)
    ensures
        r is Ok <==> target_error(method_view(args.method), args.url@, chunks@.len(), args.headers@) is None,
        r matches Err(e) ==> target_error(method_view(args.method), args.url@, chunks@.len(), args.headers@) == Some(e),
        r matches Ok(t) ==> {
            &&& t.method_text() == method_or_default(method_view(args.method))
            &&& t.body_value() == body_of(chunks@)
            &&& t.headers_value().len() == args.headers@.len()
        },
{
    let method = match &args.method {
        Some(m) => match parse_method(m.as_str()) {
            Some(x) => x,
            None => return Err(FetchError::MalformedInput),
        },
        None => {
            let get = "GET";
            proof {
                reveal_strlit("GET");
                assert(get@ =~= default_method());
                assert forall|i: int| 0 <= i < get@.len() implies #[trigger] is_tchar(get@[i]) by {
                    if i == 0 {} else if i == 1 {} else {}
                }
            }
            match parse_method(get) {
                Some(x) => x,
                None => return Err(FetchError::MalformedInput),
            }
        },
    };
    let (url, scheme) = match parse_url(args.url.as_str()) {
        Some(p) => p,
        None => return Err(FetchError::MalformedInput),
    };
    if !is_http_scheme(scheme.as_str()) {
        return Err(FetchError::UnsupportedScheme);
    }
    let ghost chunks_in = chunks@;
    let body = match take_body(chunks) {
        Ok(b) => b,
        Err(e) => return Err(e),
    };
    let headers = match build_headers(&args.headers) {
        Ok(h) => h,
        Err(e) => return Err(e),
    };
    let (method, text) = method;
    Ok(FetchTarget { method, method_text: Ghost(text@), url, headers, body })
}

/// Whether every pair is a header that the grammar accepts.
pub open spec fn headers_ok(h: Seq<(String, String)>) -> bool {
    forall|i: int| 0 <= i < h.len() ==> #[trigger] is_header_pair((h[i].0@, h[i].1@))
}

/// Turns each pair into a typed header, in order; fails where any pair breaks
/// the header grammar, dropping none.
pub fn build_headers(headers: &Vec<(String, String)>) -> (r: Result<
    Vec<(http::HeaderName, http::HeaderValue)>,
    FetchError,
>)
    ensures
        r is Ok <==> headers_ok(headers@),
        r matches Ok(v) ==> v@.len() == headers@.len(),
        r matches Err(e) ==> e == FetchError::MalformedHeader,
{
    let mut out: Vec<(http::HeaderName, http::HeaderValue)> = Vec::new();
    let mut i: usize = 0;
    while i < headers.len()
        invariant
            i <= headers@.len(),
            out@.len() == i,
            forall|j: int| 0 <= j < i ==> #[trigger] is_header_pair((headers@[j].0@, headers@[j].1@)),
        decreases headers@.len() - i,
    {
        let name = match parse_header_name(headers[i].0.as_str()) {
            Some(n) => n,
            None => {
                assert(!is_header_pair((headers@[i as int].0@, headers@[i as int].1@)));
                return Err(FetchError::MalformedHeader);
            },
        };
        let value = match parse_header_value(headers[i].1.as_str()) {
            Some(v) => v,
            None => {
                assert(!is_header_pair((headers@[i as int].0@, headers@[i as int].1@)));
                return Err(FetchError::MalformedHeader);
            },
        };
        out.push((name, value));
        i = i + 1;
    }
    Ok(out)
}

/// The request body: none for no chunk, the chunk itself for one; more than
/// one chunk is malformed input.
pub fn take_body(chunks: Vec<Vec<u8>>) -> (r: Result<Option<Vec<u8>>, FetchError>)
    ensures
        chunks@.len() == 0 ==> r == Ok::<Option<Vec<u8>>, FetchError>(None),
        chunks@.len() == 1 ==> r == Ok::<Option<Vec<u8>>, FetchError>(Some(chunks@[0])),
        chunks@.len() > 1 ==> r == Err::<Option<Vec<u8>>, FetchError>(FetchError::MalformedInput),
{
    let mut chunks = chunks;
    if chunks.len() == 0 {
        Ok(None)
    } else if chunks.len() == 1 {
        Ok(chunks.pop())
    } else {
        Err(FetchError::MalformedInput)
    }
}

} // verus!
