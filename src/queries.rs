use vstd::prelude::*;
use vstd::string::StringExecFns;

use crate::model::PackageCollection;

verus! {

/// The answer to a listing of collections: the collections, or a message when
/// there are none.
#[derive(Clone, Debug, PartialEq)]
pub struct PackageCollectionResult {
    pub success: bool,
    pub message: Option<String>,
    pub collections: Option<Vec<PackageCollection>>,
}

/// The answer to a listing of the collections under `uri`.
pub fn collections_by_uri_result(uri: &str, packages: Vec<PackageCollection>) -> (r: PackageCollectionResult)
    ensures
        r.success,
        packages@.len() == 0 ==> r.collections is None
            && (r.message matches Some(m) && m@ == "no collection found in "@ + uri@),
        packages@.len() > 0 ==> r.message is None && (r.collections matches Some(c) && c@ == packages@),
{
    if packages.len() == 0 {
        let mut m = String::from_str("no collection found in ");
        m.append(uri);
        PackageCollectionResult { success: true, message: Some(m), collections: None }
    } else {
        PackageCollectionResult { success: true, message: None, collections: Some(packages) }
    }
}

/// The answer to a listing of every collection.
pub fn all_collections_result(packages: Vec<PackageCollection>) -> (r: PackageCollectionResult)
    ensures
        r.success,
        packages@.len() == 0 ==> r.collections is None
            && (r.message matches Some(m) && m@ == "No package collections found in database"@),
        packages@.len() > 0 ==> r.message is None && (r.collections matches Some(c) && c@ == packages@),
{
    if packages.len() == 0 {
        let m = String::from_str("No package collections found in database");
        PackageCollectionResult { success: true, message: Some(m), collections: None }
    } else {
        PackageCollectionResult { success: true, message: None, collections: Some(packages) }
    }
}

/// The tools of a collection that was found, or none when it was not.
pub fn tools_or_empty(found: Option<Vec<String>>) -> (r: Vec<String>)
    ensures
        found matches Some(t) ==> r@ == t@,
        found is None ==> r@.len() == 0,
{
    match found {
        Some(tools) => tools,
        None => Vec::new(),
    }
}

} // verus!
