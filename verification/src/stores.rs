//! The listing of object stores that the management API gives, and the
//! search for a store by its name.

use crate::text::same_text;
use crate::text::spec_text;
use vstd::prelude::*;
use vstd::string::StringExecFns;

verus! {

/// One page of the listing of object stores.
#[derive(Default, Debug, Clone, PartialEq)]
pub struct ObjectStores {
    pub data: Vec<ObjectStore>,
    pub meta: Meta,
}

/// One object store.
#[derive(Default, Debug, Clone, PartialEq)]
pub struct ObjectStore {
    pub id: String,
    pub name: String,
    pub created_at: String,
    pub updated_at: String,
}

/// How a listing was cut into pages.
#[derive(Default, Debug, Clone, PartialEq)]
pub struct Meta {
    pub limit: i64,
    pub total: i64,
}

/// The position of the first store named `name`, or the number of stores
/// where none has that name.
pub open spec fn spec_position(stores: Seq<ObjectStore>, name: Seq<char>) -> int
    decreases stores.len(),
{
    if stores.len() == 0 {
        0
    } else if stores[0].name@ == name {
        0
    } else {
        1 + spec_position(stores.skip(1), name)
    }
}

/// The position that `spec_position` gives is that of a store named `name`
/// before which no store has that name, or it is the number of stores and
/// no store has that name.
pub proof fn position_is_first(stores: Seq<ObjectStore>, name: Seq<char>)
    ensures
        0 <= spec_position(stores, name) <= stores.len(),
        spec_position(stores, name) < stores.len() ==> stores[spec_position(stores, name)].name@
            == name,
        forall|k: int| 0 <= k < spec_position(stores, name) ==> (#[trigger] stores[k]).name@ != name,
    decreases stores.len(),
{
    if stores.len() != 0 && stores[0].name@ != name {
        let rest = stores.skip(1);
        position_is_first(rest, name);
        assert forall|k: int| 0 <= k < spec_position(stores, name) implies (#[trigger] stores[k]).name@
            != name by {
            if k > 0 {
                assert(stores[k] == rest[k - 1]);
            }
        }
    }
}

impl ObjectStores {
    /// The id of the first store named `name`, if there is one.
    pub open spec fn spec_id_of(self, name: Seq<char>) -> Option<Seq<char>> {
        let at = spec_position(self.data@, name);
        if at < self.data@.len() {
            Some(self.data@[at].id@)
        } else {
            None
        }
    }

    /// The id of the first store named `name`, if there is one.
    pub fn id_of(&self, name: &str) -> (r: Option<String>)
        ensures
            spec_text(r) == self.spec_id_of(name@),
    {
        let mut i: usize = 0;
        assert(self.data@.skip(0) == self.data@);
        while i < self.data.len()
            invariant
                i <= self.data.len(),
                spec_position(self.data@, name@) == i + spec_position(
                    self.data@.skip(i as int),
                    name@,
                ),
            decreases self.data.len() - i,
        {
            let ghost rest = self.data@.skip(i as int);
            assert(rest[0] == self.data@[i as int]);
            if same_text(self.data[i].name.as_str(), name) {
                return Some(self.data[i].id.clone());
            }
            assert(rest.skip(1) == self.data@.skip(i + 1));
            i += 1;
        }
        None
    }
}

/// The body of the request that creates a store named `name`.
pub open spec fn spec_create_store_body(name: Seq<char>) -> Seq<char> {
    "{\"name\":\""@ + name + "\"}"@
}

/// Writes the body of the request that creates a store named `name`.
pub fn create_store_body(name: &str) -> (body: String)
    ensures
        body@ == spec_create_store_body(name@),
{
    let mut body = "{\"name\":\"".to_owned();
    body.append(name);
    body.append("\"}");
    body
}

} // verus!
