use vstd::prelude::*;
use crate::error::FetchError;
use crate::ops::fetch_error;
use crate::registry::ResourceTable;
use crate::request::{headers_ok, is_token, is_web_scheme, target_error, url_scheme_of};

verus! {

/// A URL whose scheme is neither `http` nor `https` fails with an unsupported
/// scheme (given a well-formed method or none). The failure comes from the
/// checking step, which yields no target, so the permission policy is never
/// asked about such a URL.
pub proof fn lemma_unsupported_scheme_before_permission(
    method: Option<Seq<char>>,
    url: Seq<char>,
    n_chunks: nat,
    headers: Seq<(String, String)>,
)
    requires
        method matches Some(m) ==> is_token(m),
        url_scheme_of(url) matches Some(s) && !is_web_scheme(s),
    ensures
        target_error(method, url, n_chunks, headers) == Some(FetchError::UnsupportedScheme),
{
}

/// An http or https request with more than one body chunk, or with a header
/// that breaks the grammar, fails in the checking step, with malformed input
/// or a malformed header, before the permission policy could be asked.
pub proof fn lemma_malformed_request_before_permission(
    method: Option<Seq<char>>,
    url: Seq<char>,
    n_chunks: nat,
    headers: Seq<(String, String)>,
)
    requires
        method matches Some(m) ==> is_token(m),
        url_scheme_of(url) matches Some(s) && is_web_scheme(s),
        n_chunks > 1 || !headers_ok(headers),
    ensures
        n_chunks > 1 ==> target_error(method, url, n_chunks, headers) == Some(FetchError::MalformedInput),
        n_chunks <= 1 ==> target_error(method, url, n_chunks, headers) == Some(FetchError::MalformedHeader),
{
}

/// Under a permissive policy, a fetch of an http or https URL with the
/// default client, at most one body chunk and well-formed headers gets
/// through both checking steps.
pub proof fn lemma_permitted_fetch_proceeds<C, B>(
    method: Option<Seq<char>>,
    url: Seq<char>,
    table: ResourceTable<C, B>,
    n_chunks: nat,
    headers: Seq<(String, String)>,
)
    requires
        method matches Some(m) ==> is_token(m),
        url_scheme_of(url) matches Some(s) && is_web_scheme(s),
        n_chunks <= 1,
        headers_ok(headers),
    ensures
        target_error(method, url, n_chunks, headers) is None,
        fetch_error(true, None, table) is None,
{
}

/// Handles that a table hands out one after another are pairwise distinct,
/// whatever happens to the table in between: each one is the counter's value
/// at the time, and the counter has moved on before the next is handed out.
pub proof fn lemma_issued_handles_distinct<C, B>(tables: Seq<ResourceTable<C, B>>, rids: Seq<u32>)
    requires
        tables.len() == rids.len() + 1,
        forall|i: int| 0 <= i < rids.len() ==> #[trigger] rids[i] == tables[i].next_handle(),
        forall|i: int| 0 <= i < rids.len() ==> #[trigger] tables[i].next_handle() < tables[i + 1].next_handle(),
    ensures
        forall|i: int, j: int| 0 <= i < j < rids.len() ==> rids[i] != rids[j],
{
    assert forall|i: int, j: int| 0 <= i < j < rids.len() implies rids[i] != rids[j] by {
        lemma_counter_grows(tables, rids, i, j);
        assert(rids[j] == tables[j].next_handle());
        assert(rids[i] == tables[i].next_handle());
    }
}

proof fn lemma_counter_grows<C, B>(tables: Seq<ResourceTable<C, B>>, rids: Seq<u32>, i: int, j: int)
    requires
        tables.len() == rids.len() + 1,
        forall|k: int| 0 <= k < rids.len() ==> #[trigger] tables[k].next_handle() < tables[k + 1].next_handle(),
        0 <= i < j <= rids.len(),
    ensures
        tables[i].next_handle() < tables[j].next_handle(),
    decreases j - i,
{
    assert(tables[j - 1].next_handle() < tables[j].next_handle());
    if i < j - 1 {
        lemma_counter_grows(tables, rids, i, j - 1);
    }
}

/// A handle that names a response body, handed in as a client, fails with an
/// invalid handle: there is no fallback to the default client.
pub proof fn lemma_body_handle_is_no_client<C, B>(table: ResourceTable<C, B>, rid: u32)
    requires
        table.is_body(rid),
    ensures
        fetch_error(true, Some(rid), table) == Some(FetchError::InvalidHandle),
{
}

/// A well-formed fetch whose host the policy denies fails with a denied
/// permission, before its client handle is looked up.
pub proof fn lemma_denied_host_goes_no_further<C, B>(client_rid: Option<u32>, table: ResourceTable<C, B>)
    ensures
        fetch_error(false, client_rid, table) == Some(FetchError::PermissionDenied),
{
}

} // verus!
