//! Reading one setting out of a table of a document: the plain kinds of values, and what is
//! reported where a value is of the wrong kind.

use vstd::prelude::*;
use crate::document::{first_unknown, lemma_array_view, lookup, names_of, Doc, Node};
use crate::text::{text_of, texts_of};

verus! {

/// What is wrong with a value of a document.
#[derive(Debug, Clone, Copy, PartialEq, Eq)]
pub enum Fault {
    /// A table has a key that is no setting.
    UnknownField,
    /// The value is of another kind than the setting: a number where a text is due, a plain
    /// value where a table is due.
    TypeMismatch,
    /// The number is negative, or too large for the setting.
    OutOfRange,
    /// The text is none of the names that the setting can take.
    UnknownVariant,
    /// A key is missing that the rest of its table makes necessary.
    MissingField,
    /// The key of per-project settings is no absolute path.
    NotAbsolute,
}

/// A fault and the place of the value that has it.
#[derive(Debug, PartialEq, Eq)]
pub struct SchemaError {
    /// The keys that lead from the document's root to the value, the outermost first.
    pub path: Vec<String>,
    /// What is wrong with the value.
    pub fault: Fault,
}

/// The view of a [`SchemaError`].
pub struct SchemaErrorView {
    pub path: Seq<Seq<char>>,
    pub fault: Fault,
}

impl View for SchemaError {
    type V = SchemaErrorView;

    open spec fn view(&self) -> SchemaErrorView {
        SchemaErrorView { path: texts_of(self.path@), fault: self.fault }
    }
}

impl SchemaErrorView {
    /// The same fault, seen from the table that holds the faulty value under `key`.
    pub open spec fn within(self, key: Seq<char>) -> SchemaErrorView {
        SchemaErrorView { path: seq![key] + self.path, fault: self.fault }
    }
}

/// A fault of the value at hand.
pub open spec fn fault_here(fault: Fault) -> SchemaErrorView {
    SchemaErrorView { path: Seq::empty(), fault }
}

/// A fault of the value under `key` in the table at hand.
pub open spec fn fault_at(key: Seq<char>, fault: Fault) -> SchemaErrorView {
    fault_here(fault).within(key)
}

/// What was read under `key`, with a fault placed under that key.
pub open spec fn under<T>(key: Seq<char>, read: Result<T, SchemaErrorView>) -> Result<
    T,
    SchemaErrorView,
> {
    match read {
        Ok(value) => Ok(value),
        Err(error) => Err(error.within(key)),
    }
}

impl SchemaError {
    /// A fault of the value at hand.
    pub fn here(fault: Fault) -> (error: SchemaError)
        ensures
            error@ == fault_here(fault),
    {
        let error = SchemaError { path: Vec::new(), fault };
        assert(error@.path =~= Seq::empty());
        error
    }

    /// A fault of the value under `key` in the table at hand.
    pub fn at(key: &str, fault: Fault) -> (error: SchemaError)
        ensures
            error@ == fault_at(key@, fault),
    {
        SchemaError::here(fault).within(key)
    }

    /// The same fault, seen from the table that holds the faulty value under `key`.
    pub fn within(self, key: &str) -> (error: SchemaError)
        ensures
            error@ == self@.within(key@),
    {
        let mut path = self.path;
        path.insert(0, key.to_owned());
        let error = SchemaError { path, fault: self.fault };
        assert(error@.path =~= seq![key@] + self@.path);
        error
    }
}

/// The value under `key` where `section` is a table that has the key.
pub open spec fn lookup_in(section: Doc, key: Seq<char>) -> Option<Doc> {
    match section {
        Doc::Table(entries) => lookup(entries, key),
        _ => None,
    }
}

/// Nothing, where `section` is a table with no key but those of `known`; else the fault.
pub open spec fn known_keys_only(section: Doc, known: Seq<Seq<char>>) -> Result<
    (),
    SchemaErrorView,
> {
    match section {
        Doc::Table(entries) => match first_unknown(entries, known) {
            Some(key) => Err(fault_at(key, Fault::UnknownField)),
            None => Ok(()),
        },
        _ => Err(fault_here(Fault::TypeMismatch)),
    }
}

/// The flag that `value` holds.
pub open spec fn bool_of(value: Doc) -> Result<bool, SchemaErrorView> {
    match value {
        Doc::Boolean(flag) => Ok(flag),
        _ => Err(fault_here(Fault::TypeMismatch)),
    }
}

/// The text that `value` holds.
pub open spec fn string_of(value: Doc) -> Result<Seq<char>, SchemaErrorView> {
    match value {
        Doc::String(text) => Ok(text),
        _ => Err(fault_here(Fault::TypeMismatch)),
    }
}

/// The number that `value` holds, where it fits 64 bits without a sign.
pub open spec fn u64_of(value: Doc) -> Result<u64, SchemaErrorView> {
    match value {
        Doc::Integer(number) => if 0 <= number <= u64::MAX {
            Ok(number as u64)
        } else {
            Err(fault_here(Fault::OutOfRange))
        },
        _ => Err(fault_here(Fault::TypeMismatch)),
    }
}

/// The number that `value` holds, where it fits the machine's word without a sign.
pub open spec fn usize_of(value: Doc) -> Result<usize, SchemaErrorView> {
    match value {
        Doc::Integer(number) => if 0 <= number <= usize::MAX {
            Ok(number as usize)
        } else {
            Err(fault_here(Fault::OutOfRange))
        },
        _ => Err(fault_here(Fault::TypeMismatch)),
    }
}

/// Whether every item of `items` is a text.
pub open spec fn all_strings(items: Seq<Doc>) -> bool {
    forall|i: int| 0 <= i < items.len() ==> #[trigger] items[i] is String
}

/// The texts that `value` holds, where it is an array of texts.
pub open spec fn strings_of(value: Doc) -> Result<Seq<Seq<char>>, SchemaErrorView> {
    match value {
        Doc::Array(items) => if all_strings(items) {
            Ok(Seq::new(items.len(), |i: int| items[i]->String_0))
        } else {
            Err(fault_here(Fault::TypeMismatch))
        },
        _ => Err(fault_here(Fault::TypeMismatch)),
    }
}

/// The flag under `key`, or `default` where the key is not there.
pub open spec fn bool_field(section: Doc, key: Seq<char>, default: bool) -> Result<
    bool,
    SchemaErrorView,
> {
    match lookup_in(section, key) {
        Some(value) => under(key, bool_of(value)),
        None => Ok(default),
    }
}

/// The text under `key`, or `default` where the key is not there.
pub open spec fn string_field(section: Doc, key: Seq<char>, default: Seq<char>) -> Result<
    Seq<char>,
    SchemaErrorView,
> {
    match lookup_in(section, key) {
        Some(value) => under(key, string_of(value)),
        None => Ok(default),
    }
}

/// The text under `key`, or none where the key is not there.
pub open spec fn optional_string_field(section: Doc, key: Seq<char>) -> Result<
    Option<Seq<char>>,
    SchemaErrorView,
> {
    match lookup_in(section, key) {
        Some(value) => match string_of(value) {
            Ok(text) => Ok(Some(text)),
            Err(error) => Err(error.within(key)),
        },
        None => Ok(None),
    }
}

/// The number under `key`, or `default` where the key is not there.
pub open spec fn u64_field(section: Doc, key: Seq<char>, default: u64) -> Result<
    u64,
    SchemaErrorView,
> {
    match lookup_in(section, key) {
        Some(value) => under(key, u64_of(value)),
        None => Ok(default),
    }
}

/// The number under `key`, or none where the key is not there.
pub open spec fn optional_usize_field(section: Doc, key: Seq<char>) -> Result<
    Option<usize>,
    SchemaErrorView,
> {
    match lookup_in(section, key) {
        Some(value) => match usize_of(value) {
            Ok(number) => Ok(Some(number)),
            Err(error) => Err(error.within(key)),
        },
        None => Ok(None),
    }
}

/// The texts under `key`, or none at all where the key is not there.
pub open spec fn strings_field(section: Doc, key: Seq<char>) -> Result<
    Seq<Seq<char>>,
    SchemaErrorView,
> {
    match lookup_in(section, key) {
        Some(value) => under(key, strings_of(value)),
        None => Ok(Seq::empty()),
    }
}

/// Holds `section` to being a table with no key but those of `known`.
pub fn read_known_keys_only(section: &Node, known: &[&str]) -> (held: Result<(), SchemaError>)
    ensures
        match held {
            Ok(_) => known_keys_only(section@, names_of(known@)) is Ok,
            Err(error) => known_keys_only(section@, names_of(known@)) == Err::<(), SchemaErrorView>(
                error@,
            ),
        },
{
    match section {
        Node::Table(_) => match section.unknown_key(known) {
            Some(key) => Err(SchemaError::at(key, Fault::UnknownField)),
            None => Ok(()),
        },
        _ => Err(SchemaError::here(Fault::TypeMismatch)),
    }
}

/// Reads a flag.
pub fn read_bool(value: &Node) -> (read: Result<bool, SchemaError>)
    ensures
        match read {
            Ok(flag) => bool_of(value@) == Ok::<bool, SchemaErrorView>(flag),
            Err(error) => bool_of(value@) == Err::<bool, SchemaErrorView>(error@),
        },
{
    match value {
        Node::Boolean(flag) => Ok(*flag),
        _ => Err(SchemaError::here(Fault::TypeMismatch)),
    }
}

/// Reads a text.
pub fn read_string(value: &Node) -> (read: Result<String, SchemaError>)
    ensures
        match read {
            Ok(text) => string_of(value@) == Ok::<Seq<char>, SchemaErrorView>(text@),
            Err(error) => string_of(value@) == Err::<Seq<char>, SchemaErrorView>(error@),
        },
{
    match value {
        Node::String(text) => Ok(text.clone()),
        _ => Err(SchemaError::here(Fault::TypeMismatch)),
    }
}

/// Reads a number of 64 bits without a sign.
pub fn read_u64(value: &Node) -> (read: Result<u64, SchemaError>)
    ensures
        match read {
            Ok(number) => u64_of(value@) == Ok::<u64, SchemaErrorView>(number),
            Err(error) => u64_of(value@) == Err::<u64, SchemaErrorView>(error@),
        },
{
    match value {
        Node::Integer(number) => {
            if *number < 0 {
                Err(SchemaError::here(Fault::OutOfRange))
            } else {
                Ok(*number as u64)
            }
        },
        _ => Err(SchemaError::here(Fault::TypeMismatch)),
    }
}

/// Reads a number of the machine's word size without a sign.
pub fn read_usize(value: &Node) -> (read: Result<usize, SchemaError>)
    ensures
        match read {
            Ok(number) => usize_of(value@) == Ok::<usize, SchemaErrorView>(number),
            Err(error) => usize_of(value@) == Err::<usize, SchemaErrorView>(error@),
        },
{
    match value {
        Node::Integer(number) => {
            if *number < 0 || *number as u64 > usize::MAX as u64 {
                Err(SchemaError::here(Fault::OutOfRange))
            } else {
                Ok(*number as usize)
            }
        },
        _ => Err(SchemaError::here(Fault::TypeMismatch)),
    }
}

/// Reads an array of texts.
pub fn read_strings(value: &Node) -> (read: Result<Vec<String>, SchemaError>)
    ensures
        match read {
            Ok(texts) => strings_of(value@) == Ok::<Seq<Seq<char>>, SchemaErrorView>(
                texts_of(texts@),
            ),
            Err(error) => strings_of(value@) == Err::<Seq<Seq<char>>, SchemaErrorView>(error@),
        },
{
    match value {
        Node::Array(items) => {
            proof {
                lemma_array_view(value);
            }
            let ghost all = value@->Array_0;
            let mut texts: Vec<String> = Vec::new();
            let mut i: usize = 0;
            while i < items.len()
                invariant
                    i <= items@.len(),
                    value@ == Doc::Array(all),
                    all.len() == items@.len(),
                    forall|j: int| 0 <= j < items@.len() ==> (#[trigger] all[j]) == items@[j]@,
                    texts@.len() == i,
                    forall|j: int| 0 <= j < i ==> (#[trigger] all[j]) == Doc::String(texts@[j]@),
                decreases items@.len() - i,
            {
                match &items[i] {
                    Node::String(text) => {
                        texts.push(text.clone());
                    },
                    _ => {
                        assert(!(all[i as int] is String));
                        return Err(SchemaError::here(Fault::TypeMismatch));
                    },
                }
                i += 1;
            }
            proof {
                assert(Seq::new(all.len(), |i: int| all[i]->String_0) =~= texts_of(texts@));
            }
            Ok(texts)
        },
        _ => Err(SchemaError::here(Fault::TypeMismatch)),
    }
}

/// Reads the flag under `key`.
pub fn read_bool_field(section: &Node, key: &str, default: bool) -> (read: Result<
    bool,
    SchemaError,
>)
    ensures
        match read {
            Ok(flag) => bool_field(section@, key@, default) == Ok::<bool, SchemaErrorView>(flag),
            Err(error) => bool_field(section@, key@, default) == Err::<bool, SchemaErrorView>(
                error@,
            ),
        },
{
    match section.get(key) {
        Some(value) => match read_bool(value) {
            Ok(flag) => Ok(flag),
            Err(error) => Err(error.within(key)),
        },
        None => Ok(default),
    }
}

/// Reads the text under `key`.
pub fn read_string_field(section: &Node, key: &str, default: &str) -> (read: Result<
    String,
    SchemaError,
>)
    ensures
        match read {
            Ok(text) => string_field(section@, key@, default@) == Ok::<
                Seq<char>,
                SchemaErrorView,
            >(text@),
            Err(error) => string_field(section@, key@, default@) == Err::<
                Seq<char>,
                SchemaErrorView,
            >(error@),
        },
{
    match section.get(key) {
        Some(value) => match read_string(value) {
            Ok(text) => Ok(text),
            Err(error) => Err(error.within(key)),
        },
        None => Ok(default.to_owned()),
    }
}

/// Reads the text under `key`, if the key is there.
pub fn read_optional_string_field(section: &Node, key: &str) -> (read: Result<
    Option<String>,
    SchemaError,
>)
    ensures
        match read {
            Ok(text) => optional_string_field(section@, key@) == Ok::<
                Option<Seq<char>>,
                SchemaErrorView,
            >(text_of(text)),
            Err(error) => optional_string_field(section@, key@) == Err::<
                Option<Seq<char>>,
                SchemaErrorView,
            >(error@),
        },
{
    match section.get(key) {
        Some(value) => match read_string(value) {
            Ok(text) => Ok(Some(text)),
            Err(error) => Err(error.within(key)),
        },
        None => Ok(None),
    }
}

/// Reads the number under `key`.
pub fn read_u64_field(section: &Node, key: &str, default: u64) -> (read: Result<u64, SchemaError>)
    ensures
        match read {
            Ok(number) => u64_field(section@, key@, default) == Ok::<u64, SchemaErrorView>(number),
            Err(error) => u64_field(section@, key@, default) == Err::<u64, SchemaErrorView>(error@),
        },
{
    match section.get(key) {
        Some(value) => match read_u64(value) {
            Ok(number) => Ok(number),
            Err(error) => Err(error.within(key)),
        },
        None => Ok(default),
    }
}

/// Reads the number under `key`, if the key is there.
pub fn read_optional_usize_field(section: &Node, key: &str) -> (read: Result<
    Option<usize>,
    SchemaError,
>)
    ensures
        match read {
            Ok(number) => optional_usize_field(section@, key@) == Ok::<
                Option<usize>,
                SchemaErrorView,
            >(number),
            Err(error) => optional_usize_field(section@, key@) == Err::<
                Option<usize>,
                SchemaErrorView,
            >(error@),
        },
{
    match section.get(key) {
        Some(value) => match read_usize(value) {
            Ok(number) => Ok(Some(number)),
            Err(error) => Err(error.within(key)),
        },
        None => Ok(None),
    }
}

/// Reads the texts under `key`.
pub fn read_strings_field(section: &Node, key: &str) -> (read: Result<Vec<String>, SchemaError>)
    ensures
        match read {
            Ok(texts) => strings_field(section@, key@) == Ok::<Seq<Seq<char>>, SchemaErrorView>(
                texts_of(texts@),
            ),
            Err(error) => strings_field(section@, key@) == Err::<Seq<Seq<char>>, SchemaErrorView>(
                error@,
            ),
        },
{
    match section.get(key) {
        Some(value) => match read_strings(value) {
            Ok(texts) => Ok(texts),
            Err(error) => Err(error.within(key)),
        },
        None => {
            let texts: Vec<String> = Vec::new();
            assert(texts_of(texts@) =~= Seq::<Seq<char>>::empty());
            Ok(texts)
        },
    }
}

} // verus!
