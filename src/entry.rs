use vstd::prelude::*;
use crate::dn::views;

verus! {

/// One attribute of a directory entry: its name and its values, in the order
/// in which the directory returned them.
#[derive(Debug)]
pub struct Attribute {
    pub name: String,
    pub values: Vec<String>,
}

/// One entry returned by a search: its distinguished name and its attributes.
/// Attribute names are distinct (see `wf`).
#[derive(Debug)]
pub struct DirEntry {
    pub dn: String,
    pub attrs: Vec<Attribute>,
}

/// The values of the first attribute named `name` at or after position `i`.
pub open spec fn lookup_from(attrs: Seq<Attribute>, name: Seq<char>, i: int) -> Option<Seq<Seq<char>>>
    decreases attrs.len() - i,
{
    if i < 0 || i >= attrs.len() {
        None
    } else if attrs[i].name@ == name {
        Some(views(attrs[i].values@))
    } else {
        lookup_from(attrs, name, i + 1)
    }
}

/// The values of the attribute named `name`, if the entry has one.
pub open spec fn lookup(attrs: Seq<Attribute>, name: Seq<char>) -> Option<Seq<Seq<char>>> {
    lookup_from(attrs, name, 0)
}

/// Values joined for display: in their order, separated by `", "`.
pub open spec fn joined(vals: Seq<Seq<char>>) -> Seq<char>
    decreases vals.len(),
{
    if vals.len() == 0 {
        Seq::empty()
    } else if vals.len() == 1 {
        vals[0]
    } else {
        joined(vals.drop_last()) + ", "@ + vals.last()
    }
}

/// The text of a table cell for an attribute: its values joined, or
/// `placeholder` where the entry lacks the attribute.
pub open spec fn cell_of(attrs: Seq<Attribute>, name: Seq<char>, placeholder: Seq<char>) -> Seq<char> {
    match lookup(attrs, name) {
        Some(vals) => joined(vals),
        None => placeholder,
    }
}

/// The text of the user column for an entry.
pub open spec fn user_cell_of(e: DirEntry) -> Seq<char> {
    cell_of(e.attrs@, "cn"@, "CN not found in entry"@)
}

/// The text of the description column for an entry.
pub open spec fn description_cell_of(e: DirEntry) -> Seq<char> {
    cell_of(e.attrs@, "description"@, "Description not found in entry"@)
}

proof fn lemma_lookup_found(attrs: Seq<Attribute>, name: Seq<char>, i: int, k: int)
    requires
        0 <= i <= k < attrs.len(),
        attrs[k].name@ == name,
        forall|j: int| i <= j < k ==> attrs[j].name@ != name,
    ensures
        lookup_from(attrs, name, i) == Some(views(attrs[k].values@)),
    decreases k - i,
{
    if i < k {
        lemma_lookup_found(attrs, name, i + 1, k);
    }
}

proof fn lemma_lookup_absent(attrs: Seq<Attribute>, name: Seq<char>, i: int)
    requires
        0 <= i,
        forall|j: int| i <= j < attrs.len() ==> attrs[j].name@ != name,
    ensures
        lookup_from(attrs, name, i) is None,
    decreases attrs.len() - i,
{
    if i < attrs.len() {
        lemma_lookup_absent(attrs, name, i + 1);
    }
}

/// What `lookup` gives on attributes with distinct names: the values of the
/// one attribute with that name, or nothing where none has it.
proof fn lemma_lookup_unique(attrs: Seq<Attribute>, name: Seq<char>)
    requires
        forall|i: int, j: int|
            0 <= i < j < attrs.len() ==> #[trigger] attrs[i].name@ != #[trigger] attrs[j].name@,
    ensures
        forall|k: int| 0 <= k < attrs.len() && attrs[k].name@ == name
            ==> lookup(attrs, name) == Some(views(#[trigger] attrs[k].values@)),
        (forall|k: int| 0 <= k < attrs.len() ==> #[trigger] attrs[k].name@ != name)
            ==> lookup(attrs, name) is None,
{
    assert forall|k: int| 0 <= k < attrs.len() && attrs[k].name@ == name
        implies lookup(attrs, name) == Some(views(#[trigger] attrs[k].values@)) by {
        assert forall|j: int| 0 <= j < k implies attrs[j].name@ != name by {
            assert(attrs[j].name@ != attrs[k].name@);
        }
        lemma_lookup_found(attrs, name, 0, k);
    }
    if forall|k: int| 0 <= k < attrs.len() ==> #[trigger] attrs[k].name@ != name {
        lemma_lookup_absent(attrs, name, 0);
    }
}

impl DirEntry {
    /// No two attributes share a name.
    pub open spec fn wf(&self) -> bool {
        forall|i: int, j: int|
            0 <= i < j < self.attrs@.len() ==> #[trigger] self.attrs@[i].name@ != #[trigger] self.attrs@[j].name@
    }

    /// An entry with the given name and no attributes.
    pub fn new(dn: String) -> (r: DirEntry)
        ensures
            r.wf(),
            r.dn == dn,
            r.attrs@.len() == 0,
    {
        DirEntry { dn, attrs: Vec::new() }
    }

    /// The values of the attribute named `name`, if the entry has one.
    pub fn get(&self, name: &str) -> (r: Option<&Vec<String>>)
        ensures
            match r {
                Some(v) => lookup(self.attrs@, name@) == Some(views(v@)),
                None => lookup(self.attrs@, name@) is None,
            },
    {
        let key = String::from_str(name);
        let mut i: usize = 0;
        while i < self.attrs.len()
            invariant
                i <= self.attrs@.len(),
                key@ == name@,
                lookup(self.attrs@, name@) == lookup_from(self.attrs@, name@, i as int),
            decreases self.attrs.len() - i,
        {
            if self.attrs[i].name == key {
                return Some(&self.attrs[i].values);
            }
            i = i + 1;
        }
        None
    }

    /// Gives the attribute `name` the values `values`, replacing the values it
    /// had; every other attribute keeps its values.
    pub fn set_values(&mut self, name: String, values: Vec<String>)
        requires
            old(self).wf(),
        ensures
            final(self).wf(),
            final(self).dn == old(self).dn,
            forall|n: Seq<char>|
                #[trigger] lookup(final(self).attrs@, n) == if n == name@ {
                    Some(views(values@))
                } else {
                    lookup(old(self).attrs@, n)
                },
    {
        let ghost name_v = name@;
        let ghost vals_v = views(values@);
        let ghost before = self.attrs@;
        let mut i: usize = 0;
        let mut found = false;
        while i < self.attrs.len() && !found
            invariant
                i <= self.attrs@.len(),
                self.attrs@ == before,
                name@ == name_v,
                views(values@) == vals_v,
                forall|j: int| 0 <= j < i ==> #[trigger] before[j].name@ != name_v,
                found ==> i < before.len() && before[i as int].name@ == name_v,
            decreases self.attrs.len() - i + (if found { 0int } else { 1int }),
        {
            if self.attrs[i].name == name {
                found = true;
            } else {
                i = i + 1;
            }
        }
        let attr = Attribute { name, values };
        if found {
            self.attrs.set(i, attr);
        } else {
            self.attrs.push(attr);
        }
        let ghost after = self.attrs@;
        assert(i < after.len());
        assert(after[i as int].name@ == name_v);
        assert(views(after[i as int].values@) == vals_v);
        assert(forall|j: int| 0 <= j < after.len() && j != i ==> j < before.len() && after[j] == before[j]);
        assert(forall|j: int| 0 <= j < before.len() && j != i ==> before[j].name@ != name_v);
        assert forall|a: int, b: int| 0 <= a < b < after.len()
            implies #[trigger] after[a].name@ != #[trigger] after[b].name@ by {
            if a != i && b != i {
                assert(before[a].name@ != before[b].name@);
            }
        }
        assert forall|n: Seq<char>|
            #[trigger] lookup(after, n) == if n == name_v { Some(vals_v) } else { lookup(before, n) } by {
            lemma_lookup_unique(before, n);
            lemma_lookup_unique(after, n);
            if n != name_v {
                if exists|k: int| 0 <= k < before.len() && before[k].name@ == n {
                    let k = choose|k: int| 0 <= k < before.len() && before[k].name@ == n;
                    assert(k != i);
                    assert(after[k] == before[k]);
                    assert(lookup(before, n) == Some(views(before[k].values@)));
                    assert(lookup(after, n) == Some(views(after[k].values@)));
                } else {
                    assert forall|k: int| 0 <= k < after.len() implies #[trigger] after[k].name@ != n by {
                        if k != i {
                            assert(after[k] == before[k]);
                        }
                    }
                }
            } else {
                assert(lookup(after, n) == Some(views(after[i as int].values@)));
            }
        }
    }
}

/// Joins `values` for display, in their order, separated by `", "`.
pub fn join_values(values: &Vec<String>) -> (r: String)
    ensures
        r@ == joined(views(values@)),
{
    let mut r = String::new();
    let mut i: usize = 0;
    while i < values.len()
        invariant
            i <= values@.len(),
            r@ == joined(views(values@.take(i as int))),
        decreases values.len() - i,
    {
        proof {
            let t = views(values@.take(i + 1));
            assert(t.drop_last() =~= views(values@.take(i as int)));
            assert(t.last() == values@[i as int]@);
            if i == 0 {
                assert(t =~= seq![values@[0]@]);
                assert(r@ =~= Seq::<char>::empty());
            }
        }
        if i > 0 {
            r.append(", ");
        }
        r.append(values[i].as_str());
        i = i + 1;
    }
    assert(values@.take(i as int) =~= values@);
    r
}

/// The cell text for the attribute `name` of `entry`: its values joined with
/// `", "`, or `placeholder` where the entry lacks the attribute.
pub fn attribute_cell(entry: &DirEntry, name: &str, placeholder: &str) -> (r: String)
    ensures
        r@ == cell_of(entry.attrs@, name@, placeholder@),
{
    match entry.get(name) {
        Some(values) => join_values(values),
        None => String::from_str(placeholder),
    }
}

/// The user column of the results table for `entry`.
pub fn user_cell(entry: &DirEntry) -> (r: String)
    ensures
        r@ == user_cell_of(*entry),
{
    attribute_cell(entry, "cn", "CN not found in entry")
}

/// The description column of the results table for `entry`.
pub fn description_cell(entry: &DirEntry) -> (r: String)
    ensures
        r@ == description_cell_of(*entry),
{
    attribute_cell(entry, "description", "Description not found in entry")
}

/// The header of the results table.
pub fn header_row() -> (r: (String, String))
    ensures
        r.0@ == "User"@,
        r.1@ == "Description"@,
{
    (String::from_str("User"), String::from_str("Description"))
}

/// One row of the results table per entry, in order: the user cell and the
/// description cell.
pub fn table_rows(entries: &Vec<DirEntry>) -> (r: Vec<(String, String)>)
    ensures
        r@.len() == entries@.len(),
        forall|i: int| 0 <= i < r@.len() ==> {
            &&& (#[trigger] r@[i]).0@ == user_cell_of(entries@[i])
            &&& r@[i].1@ == description_cell_of(entries@[i])
        },
{
    let mut r: Vec<(String, String)> = Vec::new();
    let mut i: usize = 0;
    while i < entries.len()
        invariant
            i <= entries@.len(),
            r@.len() == i,
            forall|k: int| 0 <= k < i ==> {
                &&& (#[trigger] r@[k]).0@ == user_cell_of(entries@[k])
                &&& r@[k].1@ == description_cell_of(entries@[k])
            },
        decreases entries.len() - i,
    {
        let row = (user_cell(&entries[i]), description_cell(&entries[i]));
        r.push(row);
        i = i + 1;
    }
    r
}

} // verus!
