//! Schema fragments contributed by model and relation declarations, applied
//! once at startup.
use vstd::prelude::*;
use crate::text::{contains_folded, folded_contains};

verus! {

/// One fragment of DDL text.
pub struct SchemaItem {
    pub ddl: &'static str,
}

/// A type that contributes DDL text to the schema.
pub trait SchemaDef {
    /// The DDL text of the type.
    fn schema() -> &'static str;
}

/// The fragments to apply at startup, in the order of their submission.
pub struct SchemaRegistry {
    items: Vec<SchemaItem>,
}

impl SchemaRegistry {
    /// The DDL texts submitted so far.
    pub closed spec fn ddl_seq(&self) -> Seq<Seq<char>> {
        self.items@.map_values(|i: SchemaItem| i.ddl@)
    }

    /// A registry with no fragment.
    pub fn new() -> (r: Self)
        ensures
            r.ddl_seq().len() == 0,
    {
        SchemaRegistry { items: Vec::new() }
    }

    /// Adds one fragment at the end.
    pub fn submit(&mut self, ddl: &'static str)
        ensures
            final(self).ddl_seq() == old(self).ddl_seq().push(ddl@),
    {
        self.items.push(SchemaItem { ddl });
        assert(self.ddl_seq() =~= old(self).ddl_seq().push(ddl@));
    }

    /// The number of fragments.
    pub fn len(&self) -> (r: usize)
        ensures
            r == self.ddl_seq().len(),
    {
        self.items.len()
    }

    /// The fragment at position `i`.
    pub fn ddl(&self, i: usize) -> (r: &'static str)
        requires
            i < self.ddl_seq().len(),
        ensures
            r@ == self.ddl_seq()[i as int],
    {
        self.items[i].ddl
    }
}

/// A DDL failure that only says the definition is already there.
pub open spec fn already_defined(message: Seq<char>) -> bool {
    folded_contains(message, "already exists"@) || folded_contains(message, "already defined"@)
}

/// Whether a DDL error message only says that the definition exists already
/// (compared without regard to ASCII case), so that re-applying it is harmless.
pub fn is_schema_already_defined_error(message: &str) -> (r: bool)
    ensures
        r == already_defined(message@),
{
    contains_folded(message, "already exists") || contains_folded(message, "already defined")
}

} // verus!
