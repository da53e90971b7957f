use vstd::prelude::*;

verus! {

/// A record kind of the document store: where it is kept and how it is keyed.
pub trait PPPData {
    /// The name of the collection that holds the records.
    const COLLECTION: &'static str;

    /// The name of the field that identifies a record.
    const ID_KEY: &'static str;

    /// The type of the identifying field.
    type IdType;
}

} // verus!
