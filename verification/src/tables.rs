//! The fixed dataset: eight tables, each bound to a columnar data source at a
//! deterministic path. A run may only enter the query loop once all eight are
//! bound; binding order has no effect beyond presence.

use vstd::prelude::*;

verus! {

/// The number of tables in the dataset.
pub const TABLE_COUNT: usize = 8;

/// The eight table names, in the order the harness binds them.
pub open spec fn table_names_rep() -> Seq<Seq<char>> {
    seq![
        "customer"@,
        "orders"@,
        "lineitem"@,
        "nation"@,
        "partsupp"@,
        "supplier"@,
        "part"@,
        "region"@,
    ]
}

/// Hands out the eight table names in binding order.
pub fn required_tables() -> (r: Vec<String>)
    ensures
        r.deep_view() == table_names_rep(),
{
    let mut v: Vec<String> = Vec::new();
    v.push(String::from_str("customer"));
    v.push(String::from_str("orders"));
    v.push(String::from_str("lineitem"));
    v.push(String::from_str("nation"));
    v.push(String::from_str("partsupp"));
    v.push(String::from_str("supplier"));
    v.push(String::from_str("part"));
    v.push(String::from_str("region"));
    proof {
        assert(v.deep_view() =~= table_names_rep());
    }
    v
}

/// The data-source path for a table.
pub open spec fn data_path_rep(name: Seq<char>) -> Seq<char> {
    "tpch/data/"@ + name + ".parquet"@
}

/// Resolves a table name to the path of its columnar data file.
pub fn table_data_path(name: &str) -> (r: String)
    ensures
        r@ == data_path_rep(name@),
{
    let mut r = String::from_str("tpch/data/");
    r.append(name);
    r.append(".parquet");
    proof {
        assert(r@ =~= data_path_rep(name@));
    }
    r
}

/// All eight tables are present in the given set of bound names.
pub open spec fn all_tables_bound(s: Set<Seq<char>>) -> bool {
    forall|n: Seq<char>| table_names_rep().contains(n) ==> s.contains(n)
}

/// Records which table names have been bound to their data sources. The query
/// loop may start only once `is_complete` holds; what matters is the set of
/// bound names, never the order in which they were recorded.
pub struct Registrar {
    bound: Vec<String>,
}

/// Whether `v` holds a string whose characters are `name@`.
fn contains_name(v: &Vec<String>, name: &String) -> (r: bool)
    ensures
        r == v.deep_view().contains(name@),
{
    let mut i: usize = 0;
    while i < v.len()
        invariant
            i <= v@.len(),
            forall|j: int| 0 <= j < i ==> v.deep_view()[j] != name@,
        decreases v@.len() - i,
    {
        if v[i].eq(name) {
            assert(v.deep_view()[i as int] == name@);
            return true;
        }
        i += 1;
    }
    assert(!v.deep_view().contains(name@));
    false
}

impl Registrar {
    /// The names recorded so far, in recording order.
    pub closed spec fn bound_names(self) -> Seq<Seq<char>> {
        self.bound.deep_view()
    }

    /// The set of names recorded so far: the registrar's whole meaning.
    pub open spec fn bound_set(self) -> Set<Seq<char>> {
        self.bound_names().to_set()
    }

    /// A registrar with nothing bound yet.
    pub fn new() -> (r: Self)
        ensures
            r.bound_names() == Seq::<Seq<char>>::empty(),
    {
        let r = Registrar { bound: Vec::new() };
        proof {
            assert(r.bound_names() =~= Seq::<Seq<char>>::empty());
        }
        r
    }

    /// Records that `name` was bound to its data source.
    pub fn record(&mut self, name: String)
        ensures
            final(self).bound_names() == old(self).bound_names().push(name@),
    {
        let ghost before = self.bound_names();
        self.bound.push(name);
        proof {
            assert(final(self).bound_names() =~= before.push(name@));
        }
    }

    /// Whether every one of the eight tables has been bound.
    pub fn is_complete(&self) -> (r: bool)
        ensures
            r == all_tables_bound(self.bound_set()),
    {
        let names = required_tables();
        let mut i: usize = 0;
        while i < names.len()
            invariant
                i <= names@.len(),
                names.deep_view() == table_names_rep(),
                forall|j: int| 0 <= j < i ==> self.bound_set().contains(names.deep_view()[j]),
            decreases names@.len() - i,
        {
            if !contains_name(&self.bound, &names[i]) {
                assert(!self.bound_set().contains(names.deep_view()[i as int]));
                assert(table_names_rep().contains(names.deep_view()[i as int]));
                return false;
            }
            i += 1;
        }
        proof {
            assert forall|n: Seq<char>| table_names_rep().contains(n) implies self.bound_set()
                .contains(n) by {
                let k = choose|k: int| 0 <= k < table_names_rep().len() && table_names_rep()[k]
                    == n;
                assert(self.bound_set().contains(names.deep_view()[k]));
            }
        }
        true
    }
}

/// Table binding order has no semantic effect: two registration sequences
/// that bind the same names, in any orders, leave the same set of bound
/// names, so the same queries succeed or fail against either context.
pub proof fn lemma_registration_order_irrelevant(a: Seq<Seq<char>>, b: Seq<Seq<char>>)
    requires
        a.to_multiset() == b.to_multiset(),
    ensures
        a.to_set() == b.to_set(),
{
    broadcast use vstd::seq_lib::group_to_multiset_ensures;

    assert forall|n: Seq<char>| a.to_set().contains(n) implies b.to_set().contains(n) by {
        assert(a.to_multiset().count(n) > 0);
    }
    assert forall|n: Seq<char>| b.to_set().contains(n) implies a.to_set().contains(n) by {
        assert(b.to_multiset().count(n) > 0);
    }
    assert(a.to_set() =~= b.to_set());
}

/// Two registrars that recorded the same names, in whatever orders, agree on
/// everything the harness asks of a context: their bound sets are equal, so
/// one is ready to run queries exactly when the other is.
pub proof fn lemma_registrar_order_irrelevant(a: Registrar, b: Registrar)
    requires
        a.bound_names().to_multiset() == b.bound_names().to_multiset(),
    ensures
        a.bound_set() == b.bound_set(),
        all_tables_bound(a.bound_set()) == all_tables_bound(b.bound_set()),
{
    lemma_registration_order_irrelevant(a.bound_names(), b.bound_names());
}

} // verus!
