use vstd::prelude::*;
use crate::error::FetchError;
use crate::registry::{Resource, ResourceTable};
use crate::request::FetchTarget;

verus! {

/// Which client a fetch goes through.
#[derive(Debug, Clone, Copy, PartialEq, Eq, Structural)]
pub enum ClientChoice {
    /// The process-wide default client.
    Default,
    /// The client registered under this handle.
    Handle(u32),
}

/// A request ready to be sent through the chosen client.
pub struct PreparedFetch {
    pub method: http::Method,
    pub url: url::Url,
    pub client: ClientChoice,
    pub headers: Vec<(http::HeaderName, http::HeaderValue)>,
    pub body: Option<Vec<u8>>,
}

/// What a successful fetch delivers to its caller.
pub struct FetchResult {
    /// The handle of the response body, registered for later reads.
    pub body_rid: u32,
    pub status: u16,
    /// The canonical reason phrase of the status, empty where there is none.
    pub status_text: String,
    pub headers: Vec<(String, String)>,
}

/// The client that a fetch with this optional handle goes through.
pub open spec fn choice_of(client_rid: Option<u32>) -> ClientChoice {
    match client_rid {
        Some(rid) => ClientChoice::Handle(rid),
        None => ClientChoice::Default,
    }
}

/// The first failure once the request itself was found good: permission,
/// then the client handle. `None` where there is none.
pub open spec fn fetch_error<C, B>(
    net_permitted: bool,
    client_rid: Option<u32>,
    table: ResourceTable<C, B>,
) -> Option<FetchError> {
    if !net_permitted {
        Some(FetchError::PermissionDenied)
    } else if client_rid matches Some(rid) && !table.is_client(rid) {
        Some(FetchError::InvalidHandle)
    } else {
        None
    }
}

/// Binds a checked target to its client, given the permission policy's
/// verdict on its URL. A denied fetch goes no further: no handle is looked
/// up and no request is prepared.
pub fn op_fetch<C, B>(
    target: FetchTarget,
    net_permitted: bool,
    client_rid: Option<u32>,
    table: &ResourceTable<C, B>,
) -> (r: Result<PreparedFetch, FetchError>)
    requires
        table.wf(),
    ensures
        r is Ok <==> fetch_error(net_permitted, client_rid, *table) is None,
        r matches Err(e) ==> fetch_error(net_permitted, client_rid, *table) == Some(e),
        r matches Ok(p) ==> {
            &&& p.client == choice_of(client_rid)
            &&& p.method == target.method_value()
            &&& p.url == target.url_value()
            &&& p.headers@ == target.headers_value()
            &&& p.body == target.body_value()
        },
{
    if !net_permitted {
        return Err(FetchError::PermissionDenied);
    }
    let client = match client_rid {
        Some(rid) => {
            if table.get_client(rid).is_none() {
                return Err(FetchError::InvalidHandle);
            }
            ClientChoice::Handle(rid)
        },
        None => ClientChoice::Default,
    };
    let (method, url, headers, body) = target.into_parts();
    Ok(PreparedFetch { method, url, client, headers, body })
}

/// The canonical reason phrase of a status code, empty where it has none.
pub uninterp spec fn reason_phrase_of(code: u16) -> Seq<char>;

/// Relies on http::StatusCode::from_u16 and StatusCode::canonical_reason:
/// the phrase depends on the code alone, and codes outside 100..=999 have
/// none.
#[verifier::external_body]
fn reason_phrase(code: u16) -> (r: String)
    ensures
        r@ == reason_phrase_of(code),
        code < 100 || code > 999 ==> r@.len() == 0,
{
    match http::StatusCode::from_u16(code) {
        Ok(s) => s.canonical_reason().unwrap_or("").to_string(),
        Err(_) => String::new(),
    }
}

/// A byte that a header value may hold to be read as text: a tab, or
/// visible ASCII.
pub open spec fn is_visible_ascii(b: u8) -> bool {
    b == 9 || (32 <= b && b < 127)
}

/// Whether every byte of a header value can be read as text.
pub open spec fn is_text_value(v: Seq<u8>) -> bool {
    forall|i: int| 0 <= i < v.len() ==> #[trigger] is_visible_ascii(v[i])
}

/// Whether `s` is the ASCII text of the bytes `b`.
pub open spec fn is_ascii_text_of(s: Seq<char>, b: Seq<u8>) -> bool {
    s.len() == b.len() && forall|i: int| 0 <= i < b.len() ==> s[i] as u32 == #[trigger] b[i] as u32
}

/// Relies on String::from_utf8: ASCII bytes are valid UTF-8, one character
/// each.
#[verifier::external_body]
fn ascii_string(b: Vec<u8>) -> (r: String)
    requires
        forall|i: int| 0 <= i < b@.len() ==> #[trigger] b@[i] < 128,
    ensures
        is_ascii_text_of(r@, b@),
{
    match String::from_utf8(b) {
        Ok(s) => s,
        Err(_) => String::new(),
    }
}

/// Whether every response header value can be read as text.
pub open spec fn response_headers_ok(raw: Seq<(String, Vec<u8>)>) -> bool {
    forall|i: int| 0 <= i < raw.len() ==> #[trigger] is_text_value(raw[i].1@)
}

/// Whether `out` holds the pairs of `raw` in order, each value read as text.
pub open spec fn response_headers_read(out: Seq<(String, String)>, raw: Seq<(String, Vec<u8>)>) -> bool {
    &&& out.len() == raw.len()
    &&& forall|i: int| 0 <= i < raw.len() ==> {
        &&& (#[trigger] out[i]).0@ == raw[i].0@
        &&& is_ascii_text_of(out[i].1@, raw[i].1@)
    }
}

/// Reads the response headers as text pairs, in order. A value that is not
/// text fails the whole read: no value is dropped or altered.
pub fn read_response_headers(raw: Vec<(String, Vec<u8>)>) -> (r: Option<Vec<(String, String)>>)
    ensures
        r is Some <==> response_headers_ok(raw@),
        r matches Some(out) ==> response_headers_read(out@, raw@),
{
    let mut out: Vec<(String, String)> = Vec::new();
    let mut i: usize = 0;
    while i < raw.len()
        invariant
            i <= raw@.len(),
            forall|j: int| 0 <= j < i ==> #[trigger] is_text_value(raw@[j].1@),
            response_headers_read(out@, raw@.subrange(0, i as int)),
        decreases raw@.len() - i,
    {
        let name = raw[i].0.clone();
        let value = raw[i].1.clone();
        let mut k: usize = 0;
        while k < value.len()
            invariant
                i < raw@.len(),
                value@ == raw@[i as int].1@,
                k <= value@.len(),
                forall|j: int| 0 <= j < k ==> #[trigger] is_visible_ascii(value@[j]),
            decreases value@.len() - k,
        {
            let b = value[k];
            if !(b == 9 || (32 <= b && b < 127)) {
                assert(!is_visible_ascii(raw@[i as int].1@[k as int]));
                assert(!is_text_value(raw@[i as int].1@));
                return None;
            }
            k = k + 1;
        }
        assert forall|j: int| 0 <= j < value@.len() implies #[trigger] value@[j] < 128 by {
            assert(is_visible_ascii(value@[j]));
        }
        assert(is_text_value(raw@[i as int].1@));
        let text = ascii_string(value);
        let ghost before = out@;
        out.push((name, text));
        proof {
            let sub = raw@.subrange(0, i + 1);
            assert forall|j: int| 0 <= j < sub.len() implies {
                &&& (#[trigger] out@[j]).0@ == sub[j].0@
                &&& is_ascii_text_of(out@[j].1@, sub[j].1@)
            } by {
                if j < i {
                    assert(raw@.subrange(0, i as int)[j] == sub[j]);
                    assert(out@[j] == before[j]);
                }
            }
        }
        i = i + 1;
    }
    assert(raw@.subrange(0, raw@.len() as int) =~= raw@);
    Some(out)
}

/// Finishes a fetch whose response headers have arrived: reads the headers,
/// registers the body under a fresh handle, and builds the result. On any
/// failure nothing is registered.
pub fn complete_fetch<C, B>(
    table: &mut ResourceTable<C, B>,
    status: u16,
    raw_headers: Vec<(String, Vec<u8>)>,
    body: B,
) -> (r: Result<FetchResult, FetchError>)
    requires
        old(table).wf(),
    ensures
        final(table).wf(),
        !response_headers_ok(raw_headers@) ==> r == Err::<FetchResult, FetchError>(FetchError::NetworkError),
        response_headers_ok(raw_headers@) && !old(table).has_room() ==> r == Err::<FetchResult, FetchError>(FetchError::HandlesExhausted),
        r is Err ==> *final(table) == *old(table),
        r is Ok <==> response_headers_ok(raw_headers@) && old(table).has_room(),
        r matches Ok(res) ==> {
            &&& res.body_rid == old(table).next_handle()
            &&& !old(table)@.contains_key(res.body_rid)
            &&& final(table)@ == old(table)@.insert(res.body_rid, Resource::HttpBody(body))
            &&& final(table).next_handle() == old(table).next_handle() + 1
            &&& res.status == status
            &&& res.status_text@ == reason_phrase_of(status)
            &&& response_headers_read(res.headers@, raw_headers@)
        },
{
    let headers = match read_response_headers(raw_headers) {
        Some(h) => h,
        None => return Err(FetchError::NetworkError),
    };
    if !table.can_add() {
        return Err(FetchError::HandlesExhausted);
    }
    let body_rid = table.add(Resource::HttpBody(body));
    Ok(FetchResult { body_rid, status, status_text: reason_phrase(status), headers })
}

/// Whether a client may be built: always without a trust-anchor file, and
/// with one only where the policy lets it be read.
pub fn may_build_client(ca_file: &Option<String>, read_permitted: bool) -> (r: bool)
    ensures
        r == (ca_file is None || read_permitted),
{
    ca_file.is_none() || read_permitted
}

/// Registers a newly made client. Where a trust-anchor file was named and the
/// policy denies reading it, the call fails before anything is built or
/// registered; `client` is then the caller's `None`. Otherwise `None` means
/// the client could not be configured.
pub fn op_create_http_client<C, B>(
    table: &mut ResourceTable<C, B>,
    ca_file: &Option<String>,
    read_permitted: bool,
    client: Option<C>,
) -> (r: Result<u32, FetchError>)
    requires
        old(table).wf(),
    ensures
        final(table).wf(),
        ca_file is Some && !read_permitted ==> r == Err::<u32, FetchError>(FetchError::PermissionDenied),
        (ca_file is None || read_permitted) && client is None ==> r == Err::<u32, FetchError>(FetchError::ConfigurationError),
        (ca_file is None || read_permitted) && client is Some && !old(table).has_room() ==> r == Err::<u32, FetchError>(FetchError::HandlesExhausted),
        r is Err ==> *final(table) == *old(table),
        r is Ok <==> (ca_file is None || read_permitted) && client is Some && old(table).has_room(),
        r matches Ok(rid) ==> {
            &&& rid == old(table).next_handle()
            &&& !old(table)@.contains_key(rid)
            &&& final(table)@ == old(table)@.insert(rid, Resource::HttpClient(client->Some_0))
            &&& final(table).next_handle() == old(table).next_handle() + 1
        },
{
    if ca_file.is_some() && !read_permitted {
        return Err(FetchError::PermissionDenied);
    }
    let c = match client {
        Some(c) => c,
        None => return Err(FetchError::ConfigurationError),
    };
    if !table.can_add() {
        return Err(FetchError::HandlesExhausted);
    }
    Ok(table.add(Resource::HttpClient(c)))
}

} // verus!
