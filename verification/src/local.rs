//! The configuration of a local server: one table for each uploaded file.

use vstd::prelude::*;
use vstd::string::StringExecFns;

verus! {

/// The table that makes the local object store `name` serve the file at
/// `path` under `key`.
pub open spec fn spec_local_entry(name: Seq<char>, key: Seq<char>, path: Seq<char>) -> Seq<char> {
    "\n[[local_server.object_store."@ + name + "]]\nkey = \""@ + key + "\"\npath = \""@ + path
        + "\""@
}

/// Writes the table for one file.
pub fn local_entry(name: &str, key: &str, path: &str) -> (entry: String)
    ensures
        entry@ == spec_local_entry(name@, key@, path@),
{
    let mut entry = "\n[[local_server.object_store.".to_owned();
    entry.append(name);
    entry.append("]]\nkey = \"");
    entry.append(key);
    entry.append("\"\npath = \"");
    entry.append(path);
    entry.append("\"");
    entry
}

} // verus!
