//! Turning native values into terms, and what a native method returns into a
//! sequence of results for the evaluator.
//!
//! A plain value gives one result. An error gives one failed result. An absent
//! optional value gives none. An iterable gives the results of its elements, one
//! after another.

use crate::class::Class;
use crate::errors::OsoError;
use crate::host::Host;
use crate::table::Table;
use crate::value::{dictionary_to_polar, list_to_polar, string_to_polar, Object, Scalar, Value};
use vstd::prelude::*;

verus! {

/// Native values that convert into one term, possibly caching an instance in
/// the host.
pub trait ToPolar: Sized {
    /// Whether the value can be converted while the host is in the state `host`.
    spec fn convertible(&self, host: Host) -> bool;

    /// Whether converting the value turns the host from `before` into `after`
    /// and gives `r`.
    spec fn converted(&self, before: Host, after: Host, r: Value) -> bool;

    /// Converts the value into a term.
    fn to_polar_value(&self, host: &mut Host) -> (r: Value)
        requires
            self.convertible(*old(host)),
        ensures
            self.converted(*old(host), *final(host), r),
    ;
}

impl ToPolar for Scalar {
    open spec fn convertible(&self, host: Host) -> bool {
        true
    }

    open spec fn converted(&self, before: Host, after: Host, r: Value) -> bool {
        after == before && r == self.term()
    }

    fn to_polar_value(&self, host: &mut Host) -> (r: Value) {
        Scalar::to_polar_value(self)
    }
}

impl ToPolar for String {
    open spec fn convertible(&self, host: Host) -> bool {
        true
    }

    open spec fn converted(&self, before: Host, after: Host, r: Value) -> bool {
        &&& after == before
        &&& r matches Value::String(t) && t@ == self@
    }

    fn to_polar_value(&self, host: &mut Host) -> (r: Value) {
        string_to_polar(self.as_str())
    }
}

impl ToPolar for Vec<Scalar> {
    open spec fn convertible(&self, host: Host) -> bool {
        true
    }

    open spec fn converted(&self, before: Host, after: Host, r: Value) -> bool {
        &&& after == before
        &&& r matches Value::List(terms) && terms@ == self@.map_values(|x: Scalar| x.term())
    }

    fn to_polar_value(&self, host: &mut Host) -> (r: Value) {
        list_to_polar(self)
    }
}

impl ToPolar for Table<Scalar> {
    open spec fn convertible(&self, host: Host) -> bool {
        self.wf()
    }

    open spec fn converted(&self, before: Host, after: Host, r: Value) -> bool {
        &&& after == before
        &&& r matches Value::Dictionary(entries) && entries@.map_values(
            |e: (String, Value)| e.0@,
        ) == self.keys() && forall|i: int|
            0 <= i < entries.len() ==> self@.contains_key(entries[i].0@) && entries[i].1 == (
            #[trigger] self@[entries[i].0@]).term()
    }

    fn to_polar_value(&self, host: &mut Host) -> (r: Value) {
        dictionary_to_polar(self)
    }
}

impl ToPolar for Object {
    open spec fn convertible(&self, host: Host) -> bool {
        host.wf() && host.knows(self.type_id) && host.cached().len() < u64::MAX
    }

    open spec fn converted(&self, before: Host, after: Host, r: Value) -> bool {
        after.wf() && Host::object_converted(before, after, *self, r)
    }

    fn to_polar_value(&self, host: &mut Host) -> (r: Value) {
        let object = self.copy();
        let r = host.object_to_polar(object);
        assert(Host::object_converted(*old(host), *host, object, r));
        assert(object.fields@ == self.fields@);
        r
    }
}

impl ToPolar for Class {
    open spec fn convertible(&self, host: Host) -> bool {
        host.wf() && self.wf() && host.cached().len() < u64::MAX
    }

    open spec fn converted(&self, before: Host, after: Host, r: Value) -> bool {
        after.wf() && Host::class_converted(before, after, *self, r)
    }

    fn to_polar_value(&self, host: &mut Host) -> (r: Value) {
        host.class_to_polar(self)
    }
}

/// One result handed to the evaluator: a term, or a failure.
pub type PolarResult = Result<Value, OsoError>;

/// The shape of a value returned by a native method.
#[derive(Debug)]
pub enum Returned {
    /// A value that converts to one term.
    Single(Value),
    /// A fallible result; the error is kept as its message.
    Fallible(Result<Box<Returned>, String>),
    /// An optional result.
    Optional(Option<Box<Returned>>),
    /// An iterable result, whose elements become results of their own.
    Many(PolarIter),
}

/// The elements of an iterable result, in the order they are produced.
#[derive(Debug)]
pub struct PolarIter {
    pub iter: Vec<Returned>,
}

/// The results that a returned value stands for.
pub open spec fn results(r: Returned) -> Seq<PolarResult>
    decreases r,
{
    match r {
        Returned::Single(v) => seq![Ok(v)],
        Returned::Fallible(Ok(inner)) => results(*inner),
        Returned::Fallible(Err(message)) => seq![Err(OsoError::Custom { message })],
        Returned::Optional(None) => Seq::empty(),
        Returned::Optional(Some(inner)) => results(*inner),
        Returned::Many(items) => results_of(items.iter@),
    }
}

/// The results of a sequence of returned values, concatenated in order.
pub open spec fn results_of(items: Seq<Returned>) -> Seq<PolarResult>
    decreases items,
{
    if items.len() == 0 {
        Seq::empty()
    } else {
        results(items[0]) + results_of(items.subrange(1, items.len() as int))
    }
}

/// An error gives exactly one result, a failure with its message; a success
/// gives exactly the results of the value it holds.
pub proof fn lemma_fallible_results(r: Result<Box<Returned>, String>)
    ensures
        match r {
            Ok(inner) => results(Returned::Fallible(r)) == results(*inner),
            Err(message) => results(Returned::Fallible(r)) == seq![
                Err::<Value, OsoError>(OsoError::Custom { message }),
            ] && results(Returned::Fallible(r)).len() == 1,
        },
{
}

/// An absent value gives no result at all (not a failure); a present one gives
/// exactly the results of the value it holds.
pub proof fn lemma_optional_results(o: Option<Box<Returned>>)
    ensures
        match o {
            Some(inner) => results(Returned::Optional(o)) == results(*inner),
            None => results(Returned::Optional(o)).len() == 0,
        },
{
}

/// Flattening keeps order: the results of two runs of elements, one after the
/// other, are the results of the first run followed by those of the second.
pub proof fn lemma_results_of_concat(a: Seq<Returned>, b: Seq<Returned>)
    ensures
        results_of(a + b) == results_of(a) + results_of(b),
    decreases a.len(),
{
    if a.len() == 0 {
        assert(a + b =~= b);
        assert(Seq::<PolarResult>::empty() + results_of(b) =~= results_of(b));
    } else {
        let rest = a.subrange(1, a.len() as int);
        lemma_results_of_concat(rest, b);
        assert((a + b)[0] == a[0]);
        assert((a + b).subrange(1, (a + b).len() as int) =~= rest + b);
        assert(results(a[0]) + (results_of(rest) + results_of(b)) =~= results(a[0])
            + results_of(rest) + results_of(b));
    }
}

/// Values that native methods may return, seen as sequences of results.
pub trait ToPolarResults: Sized {
    /// The results that the value stands for.
    spec fn polar_results(self) -> Seq<PolarResult>;

    /// The results that the value stands for, in order.
    fn to_polar_results(self) -> (r: Vec<PolarResult>)
        ensures
            r@ == self.polar_results(),
    ;
}

impl ToPolarResults for Returned {
    open spec fn polar_results(self) -> Seq<PolarResult> {
        results(self)
    }

    fn to_polar_results(self) -> (r: Vec<PolarResult>)
        decreases self,
    {
        match self {
            Returned::Single(v) => vec![Ok(v)],
            Returned::Fallible(Ok(inner)) => (*inner).to_polar_results(),
            Returned::Fallible(Err(message)) => vec![Err(OsoError::Custom { message })],
            Returned::Optional(None) => Vec::new(),
            Returned::Optional(Some(inner)) => (*inner).to_polar_results(),
            Returned::Many(items) => items.to_polar_results(),
        }
    }
}

impl ToPolarResults for PolarIter {
    open spec fn polar_results(self) -> Seq<PolarResult> {
        results_of(self.iter@)
    }

    fn to_polar_results(self) -> (r: Vec<PolarResult>)
        decreases self,
    {
        let ghost whole = self;
        let ghost all = self.iter@;
        let mut items = self.iter;
        let mut out: Vec<PolarResult> = Vec::new();
        let mut k: usize = 0;
        assert(all.len() == items.len());
        assert(all.subrange(0, all.len() as int) =~= all);
        while items.len() > 0
            invariant
                all == whole.iter@,
                whole == self,
                all.len() <= usize::MAX,
                k <= all.len(),
                items@ == all.subrange(k as int, all.len() as int),
                out@ + results_of(items@) == results_of(all),
            decreases items.len(),
        {
            let ghost rest = items@;
            assert(k < all.len());
            let item = items.remove(0);
            proof {
                assert(item == whole.iter[k as int]);
                assert(decreases_to!(whole => whole.iter));
                vstd::std_specs::vec::axiom_vec_index_decreases(whole.iter, k as int);
                assert(rest.subrange(1, rest.len() as int) =~= items@);
                assert(items@ =~= all.subrange(k + 1, all.len() as int));
                assert(decreases_to!(self => item));
            }
            let mut part = item.to_polar_results();
            proof {
                assert(out@ + part@ + results_of(items@) =~= out@ + (part@ + results_of(items@)));
            }
            out.append(&mut part);
            k = k + 1;
        }
        proof {
            assert(out@ + Seq::<PolarResult>::empty() =~= out@);
        }
        out
    }
}

} // verus!
