//! The three requests that the service answers, as URLs on the local host.

use crate::decimal::{decimal, lemma_decimal_is_injective, push_decimal};
use vstd::prelude::*;

verus! {

/// Scheme, host and port of the service that listens on `port`.
pub open spec fn base_url(port: u32) -> Seq<char> {
    "http://localhost:"@ + decimal(port as nat)
}

/// The request that resolves a list by search term. The term is sent as it
/// is, with no escaping.
pub open spec fn search_url(port: u32, term: Seq<char>) -> Seq<char> {
    base_url(port) + "/search?query="@ + term
}

/// The request that resolves a list by its id.
pub open spec fn list_info_url(port: u32, list_id: u32) -> Seq<char> {
    base_url(port) + "/list?action=list_info&list_id="@ + decimal(list_id as nat)
}

/// The request for the name of the file at `index` of the list `list_id`.
pub open spec fn filename_url(port: u32, list_id: u32, index: nat) -> Seq<char> {
    base_url(port) + "/list?action=get_filename&list_id="@ + decimal(list_id as nat) + "&index="@
        + decimal(index)
}

fn base_request_url(port: u32) -> (url: String)
    ensures
        url@ == base_url(port),
{
    let mut url = "http://localhost:".to_owned();
    push_decimal(&mut url, port as u64);
    url
}

/// Builds the URL of the search request for `search_term`.
pub fn search_request_url(search_term: &str, port: u32) -> (url: String)
    ensures
        url@ == search_url(port, search_term@),
{
    let mut url = base_request_url(port);
    url.append("/search?query=");
    url.append(search_term);
    url
}

/// Builds the URL of the list-info request for `list_id`.
pub fn list_info_request_url(list_id: u32, port: u32) -> (url: String)
    ensures
        url@ == list_info_url(port, list_id),
{
    let mut url = base_request_url(port);
    url.append("/list?action=list_info&list_id=");
    push_decimal(&mut url, list_id as u64);
    url
}

/// Builds the URL of the request for the file name at `index` of `list_id`.
pub fn filename_request_url(list_id: u32, index: usize, port: u32) -> (url: String)
    ensures
        url@ == filename_url(port, list_id, index as nat),
{
    let mut url = base_request_url(port);
    url.append("/list?action=get_filename&list_id=");
    push_decimal(&mut url, list_id as u64);
    url.append("&index=");
    push_decimal(&mut url, index as u64);
    url
}

/// A file-name request names its index: two requests to the same list of
/// the same service are the same text only where they ask for the same index.
pub proof fn lemma_filename_url_names_its_index(port: u32, list_id: u32, i: nat, j: nat)
    requires
        filename_url(port, list_id, i) == filename_url(port, list_id, j),
    ensures
        i == j,
{
    let prefix = base_url(port) + "/list?action=get_filename&list_id="@ + decimal(list_id as nat)
        + "&index="@;
    assert(filename_url(port, list_id, i).skip(prefix.len() as int) =~= decimal(i));
    assert(filename_url(port, list_id, j).skip(prefix.len() as int) =~= decimal(j));
    lemma_decimal_is_injective(i, j);
}

} // verus!
