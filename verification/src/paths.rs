//! Relative request paths for the service's HTTP endpoints.
//!
//! Every request path the client sends is built here; the transport
//! layer joins them onto the configured base URL.

use vstd::prelude::*;
use vstd::string::StringExecFns;
use crate::decimal::dec_digits;

verus! {

/// Path listing all collections.
pub fn collections_path() -> (r: String)
    ensures
        r@ == "collections"@,
{
    String::from_str("collections")
}

/// Path of one collection.
pub fn collection_path(collection_name: &str) -> (r: String)
    ensures
        r@ == "collection/"@ + collection_name@,
{
    let mut m = String::from_str("collection/");
    m.append(collection_name);
    m
}

/// Path of a collection's vector-insert endpoint.
pub fn collection_insert_path(collection_name: &str) -> (r: String)
    ensures
        r@ == "collection/"@ + collection_name@ + "/insert"@,
{
    let mut m = String::from_str("collection/");
    m.append(collection_name);
    m.append("/insert");
    proof {
        assert(m@ =~= "collection/"@ + collection_name@ + "/insert"@);
    }
    m
}

/// Path of a collection's vector-delete endpoint.
pub fn collection_delete_path(collection_name: &str) -> (r: String)
    ensures
        r@ == "collection/"@ + collection_name@ + "/delete"@,
{
    let mut m = String::from_str("collection/");
    m.append(collection_name);
    m.append("/delete");
    proof {
        assert(m@ =~= "collection/"@ + collection_name@ + "/delete"@);
    }
    m
}

/// Path of a collection's similarity-search endpoint.
pub fn collection_search_path(collection_name: &str) -> (r: String)
    ensures
        r@ == "collection/"@ + collection_name@ + "/search"@,
{
    let mut m = String::from_str("collection/");
    m.append(collection_name);
    m.append("/search");
    proof {
        assert(m@ =~= "collection/"@ + collection_name@ + "/search"@);
    }
    m
}

/// Path of a collection's batch-update endpoint.
pub fn collection_update_path(collection_name: &str) -> (r: String)
    ensures
        r@ == "collection/"@ + collection_name@ + "/update"@,
{
    let mut m = String::from_str("collection/");
    m.append(collection_name);
    m.append("/update");
    proof {
        assert(m@ =~= "collection/"@ + collection_name@ + "/update"@);
    }
    m
}

/// Path of a collection's index endpoint (HNSW creation, deletion).
pub fn collection_index_path(collection_name: &str) -> (r: String)
    ensures
        r@ == "collection/"@ + collection_name@ + "/index"@,
{
    let mut m = String::from_str("collection/");
    m.append(collection_name);
    m.append("/index");
    proof {
        assert(m@ =~= "collection/"@ + collection_name@ + "/index"@);
    }
    m
}

/// Path of a collection's index endpoint under the plural route (IVF
/// creation).
pub fn collections_index_path(collection_name: &str) -> (r: String)
    ensures
        r@ == "collections/"@ + collection_name@ + "/index"@,
{
    let mut m = String::from_str("collections/");
    m.append(collection_name);
    m.append("/index");
    proof {
        assert(m@ =~= "collections/"@ + collection_name@ + "/index"@);
    }
    m
}

/// Path of one vector of a collection, by id.
pub fn vector_path(collection_name: &str, id: u32) -> (r: String)
    ensures
        r@ == "collection/"@ + collection_name@ + "/vector/"@ + dec_digits(id as nat),
{
    let mut m = String::from_str("collection/");
    m.append(collection_name);
    m.append("/vector/");
    let id_str = crate::decimal::u32_to_string(id);
    m.append(id_str.as_str());
    proof {
        assert(m@ =~= "collection/"@ + collection_name@ + "/vector/"@ + dec_digits(id as nat));
    }
    m
}

/// Path of one matrix.
pub fn matrix_path(name: &str) -> (r: String)
    ensures
        r@ == "matrix/"@ + name@,
{
    let mut m = String::from_str("matrix/");
    m.append(name);
    m
}

/// Path listing all matrices.
pub fn matrix_list_path() -> (r: String)
    ensures
        r@ == "matrix/list"@,
{
    String::from_str("matrix/list")
}

/// Path of one PQ entry.
pub fn pq_path(name: &str) -> (r: String)
    ensures
        r@ == "pq/"@ + name@,
{
    let mut m = String::from_str("pq/");
    m.append(name);
    m
}

/// Path listing all PQ entries.
pub fn pq_list_path() -> (r: String)
    ensures
        r@ == "pq/list"@,
{
    String::from_str("pq/list")
}

} // verus!
