//! Table and relation names: the default name of a model type, and the
//! registries in which the first registration of a name wins.
use vstd::prelude::*;
use crate::error::DBError;
use crate::text::{last_path_segment, last_segment, snake_case, to_snake_case};

verus! {

/// The default table name of a type: the snake case of the last segment of
/// its path.
pub open spec fn default_table_name_of(ty_path: Seq<char>) -> Seq<char> {
    snake_case(last_segment(ty_path))
}

/// The default table name for the type named `ty_path`
/// (`crate::domain::DbUser` gives `db_user`).
pub fn default_table_name(ty_path: &str) -> (r: String)
    ensures
        r@ == default_table_name_of(ty_path@),
{
    let bare = last_path_segment(ty_path);
    to_snake_case(bare.as_str())
}

/// The table registered for `model` in `entries`, the first registration
/// winning.
pub open spec fn lookup_table(entries: Seq<(Seq<char>, Seq<char>)>, model: Seq<char>) -> Option<
    Seq<char>,
>
    decreases entries.len(),
{
    if entries.len() == 0 {
        None
    } else {
        let earlier = lookup_table(entries.drop_last(), model);
        if earlier is Some {
            earlier
        } else if entries.last().0 == model {
            Some(entries.last().1)
        } else {
            None
        }
    }
}

/// What registering `table` for `model` answers: the earlier table if there is
/// one, else `table`.
pub open spec fn registered_answer(
    entries: Seq<(Seq<char>, Seq<char>)>,
    model: Seq<char>,
    table: Seq<char>,
) -> Seq<char> {
    match lookup_table(entries, model) {
        Some(t) => t,
        None => table,
    }
}

/// The entries after registering `table` for `model`.
pub open spec fn registered_entries(
    entries: Seq<(Seq<char>, Seq<char>)>,
    model: Seq<char>,
    table: Seq<char>,
) -> Seq<(Seq<char>, Seq<char>)> {
    if lookup_table(entries, model) is Some {
        entries
    } else {
        entries.push((model, table))
    }
}

/// Maps each model type's name to its table name; a model keeps the table
/// that it was first registered with.
pub struct TableRegistry {
    entries: Vec<(String, String)>,
}

impl View for TableRegistry {
    type V = Seq<(Seq<char>, Seq<char>)>;

    closed spec fn view(&self) -> Seq<(Seq<char>, Seq<char>)> {
        self.entries@.map_values(|e: (String, String)| (e.0@, e.1@))
    }
}

proof fn lemma_lookup_extends(entries: Seq<(Seq<char>, Seq<char>)>, k: int, model: Seq<char>)
    requires
        0 <= k <= entries.len(),
        lookup_table(entries.subrange(0, k), model) is Some,
    ensures
        lookup_table(entries, model) == lookup_table(entries.subrange(0, k), model),
    decreases entries.len(),
{
    if k < entries.len() {
        assert(entries.drop_last().subrange(0, k) =~= entries.subrange(0, k));
        lemma_lookup_extends(entries.drop_last(), k, model);
    } else {
        assert(entries.subrange(0, k) =~= entries);
    }
}

impl TableRegistry {
    /// An empty registry.
    pub fn new() -> (r: Self)
        ensures
            r@ == Seq::<(Seq<char>, Seq<char>)>::empty(),
    {
        TableRegistry { entries: Vec::new() }
    }

    /// The table registered for `model`, if any.
    pub fn lookup(&self, model: &str) -> (r: Option<String>)
        ensures
            match r {
                Some(t) => lookup_table(self@, model@) == Some(t@),
                None => lookup_table(self@, model@) is None,
            },
    {
        let key = model.to_owned();
        let n = self.entries.len();
        let mut i: usize = 0;
        while i < n
            invariant
                n == self.entries@.len(),
                i <= n,
                key@ == model@,
                lookup_table(self@.subrange(0, i as int), model@) is None,
            decreases n - i,
        {
            proof {
                assert(self@.subrange(0, i + 1).drop_last() =~= self@.subrange(0, i as int));
            }
            if self.entries[i].0 == key {
                let t = self.entries[i].1.clone();
                proof {
                    lemma_lookup_extends(self@, i + 1, model@);
                }
                return Some(t);
            }
            i = i + 1;
        }
        assert(self@.subrange(0, n as int) =~= self@);
        None
    }
}

/// Registers `table` as the table of `model` unless `model` already has one,
/// and answers the table that `model` is bound to from now on.
pub fn register_table(registry: &mut TableRegistry, model: &str, table: &str) -> (r: String)
    ensures
        r@ == registered_answer(old(registry)@, model@, table@),
        final(registry)@ == registered_entries(old(registry)@, model@, table@),
{
    match registry.lookup(model) {
        Some(existing) => existing,
        None => {
            registry.entries.push((model.to_owned(), table.to_owned()));
            proof {
                assert(registry@ =~= old(registry)@.push((model@, table@)));
            }
            table.to_owned()
        },
    }
}

/// Registering a model a second time, with the same or another table name,
/// answers the table of the first registration.
pub proof fn lemma_first_registration_wins(
    entries: Seq<(Seq<char>, Seq<char>)>,
    model: Seq<char>,
    first: Seq<char>,
    second: Seq<char>,
)
    ensures
        registered_answer(registered_entries(entries, model, first), model, second)
            == registered_answer(entries, model, first),
        lookup_table(registered_entries(entries, model, first), model) == Some(
            registered_answer(entries, model, first),
        ),
{
    if lookup_table(entries, model) is None {
        assert(entries.push((model, first)).drop_last() =~= entries);
    }
}

/// The set of relation names declared so far.
pub struct RelationRegistry {
    names: Vec<String>,
}

impl View for RelationRegistry {
    type V = Set<Seq<char>>;

    closed spec fn view(&self) -> Set<Seq<char>> {
        Set::new(|n: Seq<char>| exists|i: int| 0 <= i < self.names@.len() && #[trigger] self.names@[i]@ == n)
    }
}

impl RelationRegistry {
    /// An empty registry.
    pub fn new() -> (r: Self)
        ensures
            r@ == Set::<Seq<char>>::empty(),
    {
        let r = RelationRegistry { names: Vec::new() };
        assert(r@ =~= Set::<Seq<char>>::empty());
        r
    }

    /// Whether `name` has been registered.
    pub fn contains(&self, name: &str) -> (r: bool)
        ensures
            r == self@.contains(name@),
    {
        let key = name.to_owned();
        let mut i: usize = 0;
        while i < self.names.len()
            invariant
                i <= self.names@.len(),
                key@ == name@,
                forall|j: int| 0 <= j < i ==> self.names@[j]@ != name@,
            decreases self.names@.len() - i,
        {
            if self.names[i] == key {
                return true;
            }
            i = i + 1;
        }
        false
    }
}

/// Records `name` as a relation name and answers it unchanged.
pub fn register_relation(registry: &mut RelationRegistry, name: &str) -> (r: String)
    ensures
        r@ == name@,
        final(registry)@ == old(registry)@.insert(name@),
{
    if !registry.contains(name) {
        registry.names.push(name.to_owned());
        proof {
            let oldn = old(registry).names@;
            assert forall|n: Seq<char>| #[trigger] registry@.contains(n) == old(registry)@.insert(name@).contains(n) by {
                if old(registry)@.contains(n) {
                    let i = choose|i: int| 0 <= i < oldn.len() && #[trigger] oldn[i]@ == n;
                    assert(registry.names@[i]@ == n);
                }
                if n == name@ {
                    assert(registry.names@[oldn.len() as int]@ == n);
                }
                if registry@.contains(n) {
                    let i = choose|i: int| 0 <= i < registry.names@.len() && #[trigger] registry.names@[i]@ == n;
                    if i < oldn.len() {
                        assert(oldn[i]@ == n);
                    }
                }
            }
            assert(registry@ =~= old(registry)@.insert(name@));
        }
    } else {
        assert(old(registry)@.insert(name@) =~= old(registry)@);
    }
    name.to_owned()
}

/// A type that stands for a relation (an edge table) between records.
pub trait RelationMeta {
    /// The name of the relation table.
    fn relation_name() -> String;
}

/// The relation name of `R`.
pub fn relation_name<R: RelationMeta>() -> String {
    R::relation_name()
}

/// Relation names are accepted as they are: every statement that this library
/// builds binds them as a table-typed parameter, never as statement text.
pub fn ensure_relation_name(name: &str) -> (r: Result<(), DBError>)
    ensures
        r is Ok,
{
    let _ = name;
    Ok(())
}

} // verus!
