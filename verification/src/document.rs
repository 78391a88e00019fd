//! Settings documents: the tree of tables, arrays and plain values that a TOML text stands for.
//!
//! The `toml` crate reads and writes the text; everything that is decided about a document is
//! decided on the tree.

use vstd::prelude::*;
use crate::text::same_text;

verus! {

/// A node of a settings document.
///
/// A table keeps its entries in the order in which they were put; in a document that was
/// read from text they come in dictionary order of their keys. Under one key, the first entry
/// counts. A number with a fraction and a date are told apart from the rest, but what they
/// hold is not kept: no setting is of such a kind.
#[derive(Debug, PartialEq, Eq)]
pub enum Node {
    /// A text.
    String(String),
    /// A whole number.
    Integer(i64),
    /// A number with a fraction.
    Float,
    /// A flag.
    Boolean(bool),
    /// A date, a time, or both.
    Datetime,
    /// A list of values.
    Array(Vec<Node>),
    /// Values by key.
    Table(Vec<(String, Node)>),
}

/// The view of a [`Node`].
pub enum Doc {
    String(Seq<char>),
    Integer(int),
    Float,
    Boolean(bool),
    Datetime,
    Array(Seq<Doc>),
    Table(Seq<(Seq<char>, Doc)>),
}

/// The document that `value` stands for.
pub open spec fn doc_of(value: Node) -> Doc
    decreases value,
{
    match value {
        Node::String(text) => Doc::String(text@),
        Node::Integer(number) => Doc::Integer(number as int),
        Node::Float => Doc::Float,
        Node::Boolean(flag) => Doc::Boolean(flag),
        Node::Datetime => Doc::Datetime,
        Node::Array(items) => Doc::Array(
            Seq::new(
                items@.len(),
                |i: int|
                    if 0 <= i < items@.len() {
                        doc_of(items@[i])
                    } else {
                        Doc::Float
                    },
            ),
        ),
        Node::Table(entries) => Doc::Table(
            Seq::new(
                entries@.len(),
                |i: int|
                    if 0 <= i < entries@.len() {
                        (entries@[i].0@, doc_of(entries@[i].1))
                    } else {
                        (Seq::empty(), Doc::Float)
                    },
            ),
        ),
    }
}

impl View for Node {
    type V = Doc;

    open spec fn view(&self) -> Doc {
        doc_of(*self)
    }
}

/// The value of the first entry of `entries` whose key is `key`.
pub open spec fn lookup(entries: Seq<(Seq<char>, Doc)>, key: Seq<char>) -> Option<Doc>
    decreases entries.len(),
{
    if entries.len() == 0 {
        None
    } else if entries[0].0 == key {
        Some(entries[0].1)
    } else {
        lookup(entries.drop_first(), key)
    }
}

/// The first key of `entries` that is not among `known`.
pub open spec fn first_unknown(entries: Seq<(Seq<char>, Doc)>, known: Seq<Seq<char>>) -> Option<
    Seq<char>,
>
    decreases entries.len(),
{
    if entries.len() == 0 {
        None
    } else if !known.contains(entries[0].0) {
        Some(entries[0].0)
    } else {
        first_unknown(entries.drop_first(), known)
    }
}

/// The views of `names`, in order.
pub open spec fn names_of(names: Seq<&str>) -> Seq<Seq<char>> {
    Seq::new(names.len(), |i: int| names[i]@)
}

/// The entries of `table` as the view of the table holds them.
pub proof fn lemma_table_view(table: &Node)
    requires
        table is Table,
    ensures
        table@ is Table,
        table@->Table_0.len() == table->Table_0@.len(),
        forall|i: int|
            0 <= i < table->Table_0@.len() ==> (#[trigger] table@->Table_0[i]) == (
                table->Table_0@[i].0@,
                table->Table_0@[i].1@,
            ),
{
}

/// The items of `array` as the view of the array holds them.
pub proof fn lemma_array_view(array: &Node)
    requires
        array is Array,
    ensures
        array@ is Array,
        array@->Array_0.len() == array->Array_0@.len(),
        forall|i: int|
            0 <= i < array->Array_0@.len() ==> (#[trigger] array@->Array_0[i])
                == array->Array_0@[i]@,
{
}

impl Node {
    /// The value of the first entry under `key`, if this is a table that has one.
    pub fn get(&self, key: &str) -> (found: Option<&Node>)
        ensures
            match found {
                Some(value) => self@ matches Doc::Table(entries) && lookup(entries, key@) == Some(
                    value@,
                ),
                None => self@ matches Doc::Table(entries) ==> lookup(entries, key@) is None,
            },
    {
        match self {
            Node::Table(entries) => {
                proof {
                    lemma_table_view(self);
                }
                let ghost all = self@->Table_0;
                assert(all.skip(0) =~= all);
                let mut i: usize = 0;
                while i < entries.len()
                    invariant
                        i <= entries@.len(),
                        self@ == Doc::Table(all),
                        all.len() == entries@.len(),
                        forall|j: int|
                            0 <= j < entries@.len() ==> (#[trigger] all[j]) == (
                                entries@[j].0@,
                                entries@[j].1@,
                            ),
                        lookup(all, key@) == lookup(all.skip(i as int), key@),
                    decreases entries@.len() - i,
                {
                    proof {
                        assert(all.skip(i as int).drop_first() =~= all.skip(i + 1));
                        assert(all.skip(i as int)[0] == all[i as int]);
                    }
                    if same_text(entries[i].0.as_str(), key) {
                        return Some(&entries[i].1);
                    }
                    i += 1;
                }
                None
            },
            _ => None,
        }
    }

    /// The first key of this table that is not among `known`; `None` where every key is, or
    /// where this is no table.
    pub fn unknown_key(&self, known: &[&str]) -> (found: Option<&str>)
        ensures
            match found {
                Some(key) => self@ matches Doc::Table(entries) && first_unknown(
                    entries,
                    names_of(known@),
                ) == Some(key@),
                None => self@ matches Doc::Table(entries) ==> first_unknown(
                    entries,
                    names_of(known@),
                ) is None,
            },
    {
        match self {
            Node::Table(entries) => {
                proof {
                    lemma_table_view(self);
                }
                let ghost all = self@->Table_0;
                let ghost names = names_of(known@);
                assert(all.skip(0) =~= all);
                let mut i: usize = 0;
                while i < entries.len()
                    invariant
                        i <= entries@.len(),
                        self@ == Doc::Table(all),
                        all.len() == entries@.len(),
                        names == names_of(known@),
                        forall|j: int|
                            0 <= j < entries@.len() ==> (#[trigger] all[j]) == (
                                entries@[j].0@,
                                entries@[j].1@,
                            ),
                        first_unknown(all, names) == first_unknown(all.skip(i as int), names),
                    decreases entries@.len() - i,
                {
                    proof {
                        assert(all.skip(i as int).drop_first() =~= all.skip(i + 1));
                        assert(all.skip(i as int)[0] == all[i as int]);
                    }
                    if !is_among(entries[i].0.as_str(), known) {
                        return Some(entries[i].0.as_str());
                    }
                    i += 1;
                }
                None
            },
            _ => None,
        }
    }
}

/// Whether `name` is one of `known`.
pub fn is_among(name: &str, known: &[&str]) -> (found: bool)
    ensures
        found == names_of(known@).contains(name@),
{
    let ghost names = names_of(known@);
    let mut i: usize = 0;
    while i < known.len()
        invariant
            i <= known@.len(),
            names == names_of(known@),
            forall|j: int| 0 <= j < i ==> (#[trigger] names[j]) != name@,
        decreases known@.len() - i,
    {
        if same_text(known[i], name) {
            assert(names[i as int] == name@);
            return true;
        }
        i += 1;
    }
    false
}

/// An entry whose key no earlier entry has is the one that [`lookup`] finds under its key.
pub proof fn lemma_lookup_finds(entries: Seq<(Seq<char>, Doc)>, at: int)
    requires
        0 <= at < entries.len(),
        forall|j: int| 0 <= j < at ==> (#[trigger] entries[j]).0 != entries[at].0,
    ensures
        lookup(entries, entries[at].0) == Some(entries[at].1),
    decreases at,
{
    if at > 0 {
        let rest = entries.drop_first();
        assert(entries[0].0 != entries[at].0);
        assert forall|j: int| 0 <= j < at - 1 implies (#[trigger] rest[j]).0 != rest[at - 1].0 by {
            assert(entries[j + 1].0 != entries[at].0);
        }
        lemma_lookup_finds(rest, at - 1);
    }
}

/// Under a key that no entry has, [`lookup`] finds nothing.
pub proof fn lemma_lookup_misses(entries: Seq<(Seq<char>, Doc)>, key: Seq<char>)
    requires
        forall|j: int| 0 <= j < entries.len() ==> (#[trigger] entries[j]).0 != key,
    ensures
        lookup(entries, key) is None,
    decreases entries.len(),
{
    if entries.len() > 0 {
        let rest = entries.drop_first();
        assert(entries[0].0 != key);
        assert forall|j: int| 0 <= j < rest.len() implies (#[trigger] rest[j]).0 != key by {
            assert(entries[j + 1].0 != key);
        }
        lemma_lookup_misses(rest, key);
    }
}

/// Where every key is among `known`, [`first_unknown`] finds none.
pub proof fn lemma_all_known(entries: Seq<(Seq<char>, Doc)>, known: Seq<Seq<char>>)
    requires
        forall|j: int| 0 <= j < entries.len() ==> known.contains((#[trigger] entries[j]).0),
    ensures
        first_unknown(entries, known) is None,
    decreases entries.len(),
{
    if entries.len() > 0 {
        let rest = entries.drop_first();
        assert(known.contains(entries[0].0));
        assert forall|j: int| 0 <= j < rest.len() implies known.contains(
            (#[trigger] rest[j]).0,
        ) by {
            assert(known.contains(entries[j + 1].0));
        }
        lemma_all_known(rest, known);
    }
}

} // verus!
