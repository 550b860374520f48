//! A registry of descriptors and a cache of instances, and the conversion of
//! native objects and of descriptors into terms.

use crate::class::{Class, Instance, Native, CLASS_TYPE_ID};
use crate::table::InstanceMethod;
use crate::value::{Object, Value};
use vstd::prelude::*;
use vstd::string::StringExecFns;

verus! {

/// Instance-method entries that forward each of `names` to the class method of
/// that name.
pub open spec fn forwarders(names: Set<Seq<char>>) -> Map<Seq<char>, InstanceMethod> {
    Map::new(|k: Seq<char>| names.contains(k), |k: Seq<char>| InstanceMethod::FromClassMethod)
}

/// The text by which a descriptor named `name` shows as a value.
pub open spec fn type_repr(name: Seq<char>) -> Seq<char> {
    "type<"@ + name + ">"@
}

/// The descriptors of the registered types, and the instances cached during an
/// evaluation, each under its position as id.
#[derive(Debug)]
pub struct Host {
    classes: Vec<Class>,
    instances: Vec<Instance>,
    type_class: Class,
}

impl Host {
    pub closed spec fn wf(&self) -> bool {
        &&& self.type_class.wf()
        &&& self.type_class.type_id == CLASS_TYPE_ID
        &&& forall|i: int| 0 <= i < self.classes.len() ==> (#[trigger] self.classes[i]).wf()
        &&& forall|i: int, j: int|
            0 <= i < j < self.classes.len() ==> self.classes[i].type_id != self.classes[j].type_id
    }

    /// The registered descriptors.
    pub closed spec fn registered(&self) -> Seq<Class> {
        self.classes@
    }

    /// The cached instances; an instance's id is its position.
    pub closed spec fn cached(&self) -> Seq<Instance> {
        self.instances@
    }

    /// The descriptor of descriptors.
    pub closed spec fn descriptor_class(&self) -> Class {
        self.type_class
    }

    /// Whether a descriptor of `type_id` is registered.
    pub open spec fn knows(&self, type_id: u64) -> bool {
        exists|i: int| 0 <= i < self.registered().len() && self.registered()[i].type_id == type_id
    }

    /// Converting `object` turned `before` into `after` and gave `r`: the object,
    /// wrapped by the descriptor of its type, was cached under the next id.
    pub open spec fn object_converted(before: Host, after: Host, object: Object, r: Value) -> bool {
        &&& r == (Value::ExternalInstance { instance_id: before.cached().len() as u64, repr: None })
        &&& after.registered() == before.registered()
        &&& after.descriptor_class() == before.descriptor_class()
        &&& after.cached().len() == before.cached().len() + 1
        &&& after.cached().subrange(0, before.cached().len() as int) == before.cached()
        &&& exists|c: Class|
            before.registered().contains(c) && c.type_id == object.type_id && c.made(
                after.cached().last(),
                object.fields@,
            )
    }

    /// Converting `class` turned `before` into `after` and gave `r`: the
    /// descriptor of descriptors gained forwarders for the class methods it
    /// lacked, and a copy of `class` wrapped by it was cached under the next id.
    pub open spec fn class_converted(before: Host, after: Host, class: Class, r: Value) -> bool {
        &&& r matches Value::ExternalInstance { instance_id, repr: Some(repr) }
            && instance_id == before.cached().len() && repr@ == type_repr(class.name@)
        &&& after.registered() == before.registered()
        &&& after.descriptor_class().with_instance_methods(
            &before.descriptor_class(),
            forwarders(class.class_methods@.dom()).union_prefer_right(
                before.descriptor_class().instance_methods@,
            ),
        )
        &&& after.cached().len() == before.cached().len() + 1
        &&& after.cached().subrange(0, before.cached().len() as int) == before.cached()
        &&& after.cached().last().instance matches Native::Class(c) && c.same_as(&class)
        &&& after.cached().last().methods@ == after.descriptor_class().instance_methods@
    }

    /// A host with no registered type and no cached instance.
    pub fn new() -> (r: Host)
        ensures
            r.wf(),
            r.registered() == Seq::<Class>::empty(),
            r.cached() == Seq::<Instance>::empty(),
            r.descriptor_class().name@ == "Class"@,
            r.descriptor_class().instance_methods@ == Map::<Seq<char>, InstanceMethod>::empty(),
    {
        proof {
            reveal_strlit("Class");
        }
        Host { classes: Vec::new(), instances: Vec::new(), type_class: Class::new(CLASS_TYPE_ID, "Class") }
    }

    /// Where the descriptor of `type_id` is registered, if anywhere.
    fn position_of(&self, type_id: u64) -> (r: Option<usize>)
        ensures
            match r {
                Some(i) => i < self.classes.len() && self.classes[i as int].type_id == type_id,
                None => !self.knows(type_id),
            },
    {
        let mut i: usize = 0;
        while i < self.classes.len()
            invariant
                i <= self.classes.len(),
                forall|j: int| 0 <= j < i ==> self.classes[j].type_id != type_id,
            decreases self.classes.len() - i,
        {
            if self.classes[i].type_id == type_id {
                return Some(i);
            }
            i = i + 1;
        }
        None
    }

    /// Registers `class`. A descriptor registered earlier for the same type is
    /// replaced.
    pub fn cache_class(&mut self, class: Class)
        requires
            old(self).wf(),
            class.wf(),
            class.type_id != CLASS_TYPE_ID,
        ensures
            final(self).wf(),
            final(self).cached() == old(self).cached(),
            final(self).descriptor_class() == old(self).descriptor_class(),
            final(self).knows(class.type_id),
            forall|t: u64| t != class.type_id ==> (final(self).knows(t) == old(self).knows(t)),
            forall|i: int|
                0 <= i < final(self).registered().len() && final(self).registered()[i].type_id
                    == class.type_id ==> final(self).registered()[i] == class,
            forall|i: int|
                0 <= i < old(self).registered().len() && old(self).registered()[i].type_id
                    != class.type_id ==> final(self).registered().contains(old(self).registered()[i]),
    {
        let ghost c = class;
        match self.position_of(class.type_id) {
            Some(i) => {
                self.classes.set(i, class);
                proof {
                    assert(self.registered()[i as int] == c);
                    assert forall|j: int|
                        0 <= j < old(self).registered().len() && old(self).registered()[j].type_id
                            != c.type_id implies self.registered().contains(old(self).registered()[j]) by {
                        assert(self.registered()[j] == old(self).registered()[j]);
                    }
                    assert forall|t: u64| t != c.type_id implies (self.knows(t) == old(self).knows(t)) by {
                        if old(self).knows(t) {
                            let j = choose|j: int| 0 <= j < old(self).registered().len() && old(self).registered()[j].type_id == t;
                            assert(self.registered()[j] == old(self).registered()[j]);
                        }
                        if self.knows(t) {
                            let j = choose|j: int| 0 <= j < self.registered().len() && self.registered()[j].type_id == t;
                            assert(self.registered()[j] == old(self).registered()[j]);
                        }
                    }
                }
            },
            None => {
                self.classes.push(class);
                proof {
                    let n = old(self).registered().len() as int;
                    assert(self.registered()[n] == c);
                    assert forall|j: int|
                        0 <= j < old(self).registered().len() && old(self).registered()[j].type_id
                            != c.type_id implies self.registered().contains(old(self).registered()[j]) by {
                        assert(self.registered()[j] == old(self).registered()[j]);
                    }
                    assert forall|t: u64| t != c.type_id implies (self.knows(t) == old(self).knows(t)) by {
                        if old(self).knows(t) {
                            let j = choose|j: int| 0 <= j < old(self).registered().len() && old(self).registered()[j].type_id == t;
                            assert(self.registered()[j] == old(self).registered()[j]);
                        }
                        if self.knows(t) {
                            let j = choose|j: int| 0 <= j < self.registered().len() && self.registered()[j].type_id == t;
                            if j < n {
                                assert(self.registered()[j] == old(self).registered()[j]);
                            }
                        }
                    }
                }
            },
        }
    }

    /// The descriptor registered for `type_id`, if any.
    pub fn get_class_from_type(&self, type_id: u64) -> (r: Option<&Class>)
        requires
            self.wf(),
        ensures
            match r {
                Some(c) => c.type_id == type_id && c.wf() && self.registered().contains(*c),
                None => !self.knows(type_id),
            },
    {
        match self.position_of(type_id) {
            Some(i) => {
                let c = &self.classes[i];
                assert(self.registered()[i as int] == *c);
                Some(c)
            },
            None => None,
        }
    }

    /// Caches `instance` and returns its id.
    pub fn cache_instance(&mut self, instance: Instance) -> (r: u64)
        requires
            old(self).cached().len() < u64::MAX,
        ensures
            r == old(self).cached().len(),
            final(self).cached() == old(self).cached().push(instance),
            final(self).registered() == old(self).registered(),
            final(self).descriptor_class() == old(self).descriptor_class(),
            final(self).wf() == old(self).wf(),
    {
        let id = self.instances.len() as u64;
        self.instances.push(instance);
        id
    }

    /// The instance cached under `id`, if any.
    pub fn get_instance(&self, id: u64) -> (r: Option<&Instance>)
        ensures
            match r {
                Some(i) => id < self.cached().len() && *i == self.cached()[id as int],
                None => id >= self.cached().len(),
            },
    {
        if id < self.instances.len() as u64 {
            Some(&self.instances[id as usize])
        } else {
            None
        }
    }

    /// The descriptor of descriptors.
    pub fn type_class(&self) -> (r: &Class)
        ensures
            *r == self.descriptor_class(),
    {
        &self.type_class
    }

    /// Converts a native object into a term: the object is wrapped by the
    /// descriptor of its type and cached, and the term refers to it by id.
    pub fn object_to_polar(&mut self, object: Object) -> (r: Value)
        requires
            old(self).wf(),
            old(self).knows(object.type_id),
            old(self).cached().len() < u64::MAX,
        ensures
            final(self).wf(),
            Host::object_converted(*old(self), *final(self), object, r),
    {
        let ghost o = object;
        let class = self.get_class_from_type(object.type_id).unwrap();
        let instance = class.cast_to_instance(Native::Object(object));
        assert(class.made(instance, o.fields@));
        let id = self.cache_instance(instance);
        assert(self.cached().subrange(0, old(self).cached().len() as int) =~= old(self).cached());
        Value::ExternalInstance { instance_id: id, repr: None }
    }

    /// Converts a descriptor into a term that stands for the type itself.
    ///
    /// The descriptor of descriptors first gains, for each class method of
    /// `class` that it has no instance method for, an instance method of that
    /// name that forwards to the class method. A copy of `class` is then wrapped
    /// by the descriptor of descriptors and cached, and the term refers to it by
    /// id, shown as `type<name>`.
    pub fn class_to_polar(&mut self, class: &Class) -> (r: Value)
        requires
            old(self).wf(),
            class.wf(),
            old(self).cached().len() < u64::MAX,
        ensures
            final(self).wf(),
            Host::class_converted(*old(self), *final(self), *class, r),
    {
        let ghost before = self.type_class.instance_methods@;
        let n = class.class_methods.len();
        let mut i: usize = 0;
        proof {
            let empty = class.class_methods.keys().subrange(0, 0);
            assert(empty.to_set() =~= Set::<Seq<char>>::empty());
            assert(forwarders(empty.to_set()).union_prefer_right(before) =~= before);
        }
        while i < n
            invariant
                self.wf(),
                class.wf(),
                n == class.class_methods.keys().len(),
                i <= n,
                self.type_class.with_instance_methods(
                    &old(self).type_class,
                    forwarders(class.class_methods.keys().subrange(0, i as int).to_set()).union_prefer_right(
                        before,
                    ),
                ),
                before == old(self).type_class.instance_methods@,
                self.classes == old(self).classes,
                self.instances == old(self).instances,
            decreases n - i,
        {
            let name = class.class_methods.name_at(i);
            let ghost prefix = class.class_methods.keys().subrange(0, i as int);
            let ghost next = class.class_methods.keys().subrange(0, i + 1);
            self.type_class.instance_methods.insert_if_absent(name, InstanceMethod::FromClassMethod);
            proof {
                assert(next =~= prefix.push(name@));
                assert forall|x: Seq<char>| next.contains(x) <==> prefix.to_set().insert(name@).contains(x) by {
                    if x == name@ {
                        assert(next[i as int] == x);
                    }
                    if prefix.contains(x) {
                        let j = choose|j: int| 0 <= j < prefix.len() && prefix[j] == x;
                        assert(next[j] == x);
                    }
                    if next.contains(x) && x != name@ {
                        let j = choose|j: int| 0 <= j < next.len() && next[j] == x;
                        assert(prefix[j] == x);
                    }
                }
                assert(next.to_set() =~= prefix.to_set().insert(name@));
                assert(self.type_class.instance_methods@ =~= forwarders(next.to_set()).union_prefer_right(before));
            }
            i = i + 1;
        }
        proof {
            class.class_methods.lemma_dom_is_keys();
            assert(class.class_methods.keys().subrange(0, n as int) =~= class.class_methods.keys());
        }
        let mut repr = "type<".to_string();
        repr.append(class.name.as_str());
        repr.append(">");
        proof {
            reveal_strlit("type<");
            reveal_strlit(">");
        }
        let instance = self.type_class.cast_to_instance(Native::Class(class.copy()));
        let id = self.cache_instance(instance);
        assert(self.cached().subrange(0, old(self).cached().len() as int) =~= old(self).cached());
        Value::ExternalInstance { instance_id: id, repr: Some(repr) }
    }
}

} // verus!
