//! The persisted record and its creation input.

use vstd::prelude::*;

verus! {

/// A persisted catalog record: a named entity with an attached image asset.
///
/// `id` is assigned by the store at insert time and never changes. `name`
/// comes from the client at creation. `image_path` is derived by the server
/// from where the uploaded image was persisted, never supplied by the client;
/// it is a server-relative URL path such as `/image/cat_7`.
pub struct Cat {
    pub id: i32,
    pub name: String,
    pub image_path: String,
}

impl Cat {
    /// The invariant of every persisted record: a positive id, a non-empty
    /// name, and a non-empty server-relative image path (leading `/`, so no
    /// leading filesystem marker survives into the public URL).
    pub open spec fn wf(self) -> bool {
        &&& self.id >= 1
        &&& self.name@.len() > 0
        &&& self.image_path@.len() > 0
        &&& self.image_path@[0] == '/'
    }

    /// Two records carry the same data: equal id, name and image path.
    pub open spec fn same_record(self, other: Cat) -> bool {
        &&& self.id == other.id
        &&& self.name@ == other.name@
        &&& self.image_path@ == other.image_path@
    }
}

/// The creation input for a record: the same shape as [`Cat`] minus `id`,
/// which the store generates.
pub struct NewCat {
    pub name: String,
    pub image_path: String,
}

impl NewCat {
    /// What a creation input must satisfy before it may reach the store.
    pub open spec fn wf(self) -> bool {
        &&& self.name@.len() > 0
        &&& self.image_path@.len() > 0
        &&& self.image_path@[0] == '/'
    }
}

} // verus!
