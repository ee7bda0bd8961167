//! Paths for the served OpenAPI documents.
use vstd::prelude::*;

verus! {

/// The path under which one entity's OpenAPI document is served:
/// `/<path>/openapi-<file_name>.json`.
pub fn path_json_file(path: &str, file_name: &str) -> (r: String)
    ensures
        r@ == "/"@ + path@ + "/openapi-"@ + file_name@ + ".json"@,
{
    let mut s = String::new();
    s.append("/");
    s.append(path);
    s.append("/openapi-");
    s.append(file_name);
    s.append(".json");
    proof {
        assert(s@ =~= "/"@ + path@ + "/openapi-"@ + file_name@ + ".json"@);
    }
    s
}

} // verus!
