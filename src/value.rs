//! Terms of the evaluator, and native objects of registered types.

use crate::table::Table;
use vstd::prelude::*;

verus! {

/// A term as the evaluator sees it.
#[derive(Debug, PartialEq)]
pub enum Value {
    Boolean(bool),
    Integer(i64),
    String(String),
    List(Vec<Value>),
    /// Named fields, each name once.
    Dictionary(Vec<(String, Value)>),
    /// A reference to a native value cached by the host under `instance_id`.
    ExternalInstance { instance_id: u64, repr: Option<String> },
}

/// A field of a native object.
#[derive(Clone, Copy, Debug, PartialEq, Eq, Structural)]
pub enum Scalar {
    Boolean(bool),
    Integer(i64),
}

impl Scalar {
    /// The term that a field converts to.
    pub open spec fn term(self) -> Value {
        match self {
            Scalar::Boolean(b) => Value::Boolean(b),
            Scalar::Integer(i) => Value::Integer(i),
        }
    }

    /// Converts the field into a term: booleans stay booleans, integers stay integers.
    pub fn to_polar_value(&self) -> (r: Value)
        ensures
            r == self.term(),
    {
        match self {
            Scalar::Boolean(b) => Value::Boolean(*b),
            Scalar::Integer(i) => Value::Integer(*i),
        }
    }
}

/// Converts a string into a string term.
pub fn string_to_polar(s: &str) -> (r: Value)
    ensures
        r matches Value::String(t) && t@ == s@,
{
    Value::String(s.to_string())
}

/// Converts a sequence of fields into a list term, element by element.
pub fn list_to_polar(items: &Vec<Scalar>) -> (r: Value)
    ensures
        r matches Value::List(terms) && terms@ == items@.map_values(|x: Scalar| x.term()),
{
    let mut terms: Vec<Value> = Vec::new();
    let mut i: usize = 0;
    while i < items.len()
        invariant
            i <= items.len(),
            terms@ == items@.subrange(0, i as int).map_values(|x: Scalar| x.term()),
        decreases items.len() - i,
    {
        terms.push(items[i].to_polar_value());
        proof {
            assert(items@.subrange(0, i + 1) =~= items@.subrange(0, i as int).push(items@[i as int]));
            assert(items@.subrange(0, i + 1).map_values(|x: Scalar| x.term()) =~= items@.subrange(
                0,
                i as int,
            ).map_values(|x: Scalar| x.term()).push(items@[i as int].term()));
        }
        i = i + 1;
    }
    assert(items@.subrange(0, i as int) =~= items@);
    Value::List(terms)
}

/// Converts a mapping from names to fields into a dictionary term: one entry per
/// name, in the order of the map's names, each field converted.
pub fn dictionary_to_polar(map: &Table<Scalar>) -> (r: Value)
    requires
        map.wf(),
    ensures
        r matches Value::Dictionary(entries) && entries@.map_values(|e: (String, Value)| e.0@)
            == map.keys() && forall|i: int|
            0 <= i < entries.len() ==> map@.contains_key(entries[i].0@) && entries[i].1 == (
                #[trigger] map@[entries[i].0@]).term(),
{
    let mut entries: Vec<(String, Value)> = Vec::new();
    let n = map.len();
    let mut i: usize = 0;
    while i < n
        invariant
            map.wf(),
            n == map.keys().len(),
            i <= n,
            entries.len() == i,
            entries@.map_values(|e: (String, Value)| e.0@) == map.keys().subrange(0, i as int),
            forall|j: int|
                0 <= j < i ==> map@.contains_key(entries[j].0@) && entries[j].1 == (
                #[trigger] map@[entries[j].0@]).term(),
        decreases n - i,
    {
        let (name, field) = map.entry_at(i);
        let ghost before = entries@;
        let key = name.clone();
        assert(key@ == map.keys()[i as int]);
        entries.push((key, field.to_polar_value()));
        proof {
            assert(entries@ =~= before.push(entries@[i as int]));
            assert(entries@.map_values(|e: (String, Value)| e.0@) =~= before.map_values(
                |e: (String, Value)| e.0@,
            ).push(map.keys()[i as int]));
            assert(map.keys().subrange(0, i + 1) =~= map.keys().subrange(0, i as int).push(
                map.keys()[i as int],
            ));
            assert(entries[i as int].1 == map@[entries[i as int].0@].term());
        }
        i = i + 1;
    }
    assert(map.keys().subrange(0, n as int) =~= map.keys());
    Value::Dictionary(entries)
}

/// A native value of some registered type: the token of its type and its fields.
#[derive(Clone, Debug, PartialEq, Eq)]
pub struct Object {
    pub type_id: u64,
    pub fields: Vec<Scalar>,
}

impl View for Object {
    type V = (u64, Seq<Scalar>);

    open spec fn view(&self) -> (u64, Seq<Scalar>) {
        (self.type_id, self.fields@)
    }
}

/// Copies a sequence of fields.
pub fn copy_fields(fields: &Vec<Scalar>) -> (r: Vec<Scalar>)
    ensures
        r@ == fields@,
{
    let mut r: Vec<Scalar> = Vec::new();
    let mut i: usize = 0;
    while i < fields.len()
        invariant
            i <= fields.len(),
            r@ == fields@.subrange(0, i as int),
        decreases fields.len() - i,
    {
        r.push(fields[i]);
        i = i + 1;
    }
    assert(r@ =~= fields@);
    r
}

impl Object {
    /// A copy of the object.
    pub fn copy(&self) -> (r: Object)
        ensures
            r@ == self@,
    {
        Object { type_id: self.type_id, fields: copy_fields(&self.fields) }
    }

    /// Whether the two objects have the same fields, one by one.
    pub fn same_fields(&self, other: &Object) -> (r: bool)
        ensures
            r == (self.fields@ == other.fields@),
    {
        if self.fields.len() != other.fields.len() {
            return false;
        }
        let mut i: usize = 0;
        while i < self.fields.len()
            invariant
                i <= self.fields.len(),
                self.fields.len() == other.fields.len(),
                self.fields@.subrange(0, i as int) == other.fields@.subrange(0, i as int),
            decreases self.fields.len() - i,
        {
            if self.fields[i] != other.fields[i] {
                assert(self.fields@[i as int] != other.fields@[i as int]);
                return false;
            }
            assert(self.fields@.subrange(0, i + 1) =~= self.fields@.subrange(0, i as int).push(self.fields@[i as int]));
            assert(other.fields@.subrange(0, i + 1) =~= other.fields@.subrange(0, i as int).push(other.fields@[i as int]));
            i = i + 1;
        }
        assert(self.fields@ =~= self.fields@.subrange(0, i as int));
        assert(other.fields@ =~= other.fields@.subrange(0, i as int));
        true
    }
}

} // verus!
