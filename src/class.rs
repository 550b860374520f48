//! Type descriptors, and the type-erased instances they produce.
//!
//! A descriptor stands for one native type, identified by a token. Its
//! capabilities (constructor, methods, equality) are plain data: the callables
//! themselves are handles that the embedding application resolves.

use crate::errors::OsoError;
use crate::table::{ClassMethod, InstanceMethod, Invocable, Table};
use crate::value::{copy_fields, Object, Scalar};
use vstd::prelude::*;

verus! {

/// The type token of descriptors themselves, when a descriptor is held as a value.
/// Registered native types use other tokens.
pub const CLASS_TYPE_ID: u64 = 0;

/// How a descriptor compares two values of its type.
#[derive(Clone, Copy, Debug, PartialEq, Eq, Structural)]
pub enum EqualityCheck {
    /// Comparison fails with an unsupported-operation error.
    Unsupported,
    /// The native equality of the type: two objects are equal when their fields are.
    Native,
}

/// How a descriptor builds a value of its type.
#[derive(Debug)]
pub enum Constructor {
    /// Ignores the arguments and builds the type's default value, with these fields.
    Default(Vec<Scalar>),
    /// Takes exactly this many arguments and makes them the new value's fields.
    Record(usize),
}

/// What a constructor is, as a mathematical value.
pub enum ConstructorModel {
    Default(Seq<Scalar>),
    Record(usize),
}

impl View for Constructor {
    type V = ConstructorModel;

    open spec fn view(&self) -> ConstructorModel {
        match self {
            Constructor::Default(fields) => ConstructorModel::Default(fields@),
            Constructor::Record(n) => ConstructorModel::Record(*n),
        }
    }
}

impl Constructor {
    /// A copy of the constructor.
    pub fn copy(&self) -> (r: Constructor)
        ensures
            r@ == self@,
    {
        match self {
            Constructor::Default(fields) => Constructor::Default(copy_fields(fields)),
            Constructor::Record(n) => Constructor::Record(*n),
        }
    }
}

/// The constructor of a descriptor, as a mathematical value.
pub open spec fn constructor_model(c: Option<Constructor>) -> Option<ConstructorModel> {
    match c {
        Some(c) => Some(c@),
        None => None,
    }
}

/// The result of comparing two values of the type `class_name`, which has no equality.
pub fn equality_not_supported(class_name: String) -> (r: Result<bool, OsoError>)
    ensures
        r matches Err(OsoError::UnsupportedOperation { operation, class_name: n })
            && operation@ == "equals"@ && n == class_name,
{
    let operation = "equals".to_string();
    proof {
        reveal_strlit("equals");
    }
    Err(OsoError::UnsupportedOperation { operation, class_name })
}

/// A descriptor of one native type.
#[derive(Debug)]
pub struct Class {
    /// The name under which rules see the type.
    pub name: String,
    /// Absent when rules cannot construct the type.
    pub constructor: Option<Constructor>,
    /// Attribute getters: methods without arguments.
    pub attributes: Table<InstanceMethod>,
    pub instance_methods: Table<InstanceMethod>,
    pub class_methods: Table<ClassMethod>,
    /// The token of the native type.
    pub type_id: u64,
    pub equality_check: EqualityCheck,
}

/// A type-erased native value: an object of a registered type, or a descriptor.
#[derive(Debug)]
pub enum Native {
    Object(Object),
    Class(Class),
}

impl Native {
    /// The token of the value's native type.
    pub open spec fn type_token(&self) -> u64 {
        match self {
            Native::Object(o) => o.type_id,
            Native::Class(_) => CLASS_TYPE_ID,
        }
    }

    /// The token of the value's native type.
    pub fn type_id(&self) -> (r: u64)
        ensures
            r == self.type_token(),
    {
        match self {
            Native::Object(o) => o.type_id,
            Native::Class(_) => CLASS_TYPE_ID,
        }
    }
}

/// A native value wrapped for the evaluator, with the tables of the descriptor
/// that wrapped it, as they were at that moment.
#[derive(Debug)]
pub struct Instance {
    /// The descriptor's name when the instance was made.
    pub name: String,
    pub instance: Native,
    pub attributes: Table<InstanceMethod>,
    pub methods: Table<InstanceMethod>,
    /// A copy of the descriptor that made the instance.
    pub class: Class,
}

impl Class {
    /// The tables are well formed.
    pub open spec fn wf(&self) -> bool {
        &&& self.attributes.wf()
        &&& self.instance_methods.wf()
        &&& self.class_methods.wf()
    }

    /// `other` describes the type the same way as `self`.
    pub open spec fn same_as(&self, other: &Class) -> bool {
        &&& self.name@ == other.name@
        &&& constructor_model(self.constructor) == constructor_model(other.constructor)
        &&& self.attributes@ == other.attributes@
        &&& self.instance_methods@ == other.instance_methods@
        &&& self.class_methods@ == other.class_methods@
        &&& self.type_id == other.type_id
        &&& self.equality_check == other.equality_check
    }

    /// `self` is `old` with only its instance methods changed, to `methods`.
    pub open spec fn with_instance_methods(&self, old: &Class, methods: Map<Seq<char>, InstanceMethod>) -> bool {
        &&& self.name@ == old.name@
        &&& constructor_model(self.constructor) == constructor_model(old.constructor)
        &&& self.attributes@ == old.attributes@
        &&& self.instance_methods@ == methods
        &&& self.class_methods@ == old.class_methods@
        &&& self.type_id == old.type_id
        &&& self.equality_check == old.equality_check
    }

    /// A descriptor of the type `type_id`, named `name`: no constructor, no
    /// methods, and no equality.
    pub fn new(type_id: u64, name: &str) -> (r: Class)
        ensures
            r.wf(),
            r.name@ == name@,
            r.constructor is None,
            r.attributes@ == Map::<Seq<char>, InstanceMethod>::empty(),
            r.instance_methods@ == Map::<Seq<char>, InstanceMethod>::empty(),
            r.class_methods@ == Map::<Seq<char>, ClassMethod>::empty(),
            r.type_id == type_id,
            r.equality_check == EqualityCheck::Unsupported,
    {
        Class {
            name: name.to_string(),
            constructor: None,
            attributes: Table::new(),
            instance_methods: Table::new(),
            class_methods: Table::new(),
            type_id,
            equality_check: EqualityCheck::Unsupported,
        }
    }

    /// A descriptor whose constructor builds the type's default value, which has
    /// the fields `default`.
    pub fn with_default(type_id: u64, name: &str, default: Vec<Scalar>) -> (r: Class)
        ensures
            r.wf(),
            r.name@ == name@,
            constructor_model(r.constructor) == Some(ConstructorModel::Default(default@)),
            r.attributes@ == Map::<Seq<char>, InstanceMethod>::empty(),
            r.instance_methods@ == Map::<Seq<char>, InstanceMethod>::empty(),
            r.class_methods@ == Map::<Seq<char>, ClassMethod>::empty(),
            r.type_id == type_id,
            r.equality_check == EqualityCheck::Unsupported,
    {
        Self::with_constructor(type_id, name, Constructor::Default(default))
    }

    /// A descriptor with the constructor `f`.
    pub fn with_constructor(type_id: u64, name: &str, f: Constructor) -> (r: Class)
        ensures
            r.wf(),
            r.name@ == name@,
            constructor_model(r.constructor) == Some(f@),
            r.attributes@ == Map::<Seq<char>, InstanceMethod>::empty(),
            r.instance_methods@ == Map::<Seq<char>, InstanceMethod>::empty(),
            r.class_methods@ == Map::<Seq<char>, ClassMethod>::empty(),
            r.type_id == type_id,
            r.equality_check == EqualityCheck::Unsupported,
    {
        let class = Class::new(type_id, name);
        class.set_constructor(f)
    }

    /// Replaces the constructor with `f`.
    pub fn set_constructor(self, f: Constructor) -> (r: Class)
        ensures
            r.wf() == self.wf(),
            constructor_model(r.constructor) == Some(f@),
            r.name == self.name,
            r.attributes == self.attributes,
            r.instance_methods == self.instance_methods,
            r.class_methods == self.class_methods,
            r.type_id == self.type_id,
            r.equality_check == self.equality_check,
    {
        let mut class = self;
        class.constructor = Some(f);
        class
    }

    /// Replaces how values of the type are compared.
    pub fn set_equality_check(self, check: EqualityCheck) -> (r: Class)
        ensures
            r.wf() == self.wf(),
            r.equality_check == check,
            r.name == self.name,
            r.constructor == self.constructor,
            r.attributes == self.attributes,
            r.instance_methods == self.instance_methods,
            r.class_methods == self.class_methods,
            r.type_id == self.type_id,
    {
        let mut class = self;
        class.equality_check = check;
        class
    }

    /// Compares values of the type by the type's own equality.
    pub fn with_equality_check(self) -> (r: Class)
        ensures
            r.wf() == self.wf(),
            r.equality_check == EqualityCheck::Native,
            r.name == self.name,
            r.constructor == self.constructor,
            r.attributes == self.attributes,
            r.instance_methods == self.instance_methods,
            r.class_methods == self.class_methods,
            r.type_id == self.type_id,
    {
        self.set_equality_check(EqualityCheck::Native)
    }

    /// Registers the attribute getter `f` under `name`, replacing any getter of that name.
    pub fn add_attribute_getter(self, name: &str, f: Invocable) -> (r: Class)
        requires
            self.wf(),
        ensures
            r.wf(),
            r.attributes@ == self.attributes@.insert(name@, InstanceMethod::Call(f)),
            r.name == self.name,
            r.constructor == self.constructor,
            r.instance_methods == self.instance_methods,
            r.class_methods == self.class_methods,
            r.type_id == self.type_id,
            r.equality_check == self.equality_check,
    {
        let mut class = self;
        class.attributes.insert(name.to_string(), InstanceMethod::Call(f));
        class
    }

    /// Renames the descriptor.
    pub fn name(self, name: &str) -> (r: Class)
        ensures
            r.wf() == self.wf(),
            r.name@ == name@,
            r.constructor == self.constructor,
            r.attributes == self.attributes,
            r.instance_methods == self.instance_methods,
            r.class_methods == self.class_methods,
            r.type_id == self.type_id,
            r.equality_check == self.equality_check,
    {
        let mut class = self;
        class.name = name.to_string();
        class
    }

    /// Registers the method `f` under `name`, replacing any method of that name.
    pub fn add_method(self, name: &str, f: Invocable) -> (r: Class)
        requires
            self.wf(),
        ensures
            r.wf(),
            r.instance_methods@ == self.instance_methods@.insert(name@, InstanceMethod::Call(f)),
            r.name == self.name,
            r.constructor == self.constructor,
            r.attributes == self.attributes,
            r.class_methods == self.class_methods,
            r.type_id == self.type_id,
            r.equality_check == self.equality_check,
    {
        let mut class = self;
        class.instance_methods.insert(name.to_string(), InstanceMethod::Call(f));
        class
    }

    /// Registers under `name` the method `f`, whose result is iterable: each of
    /// its elements becomes a result of its own.
    pub fn add_iterator_method(self, name: &str, f: Invocable) -> (r: Class)
        requires
            self.wf(),
        ensures
            r.wf(),
            r.instance_methods@ == self.instance_methods@.insert(name@, InstanceMethod::Iterate(f)),
            r.name == self.name,
            r.constructor == self.constructor,
            r.attributes == self.attributes,
            r.class_methods == self.class_methods,
            r.type_id == self.type_id,
            r.equality_check == self.equality_check,
    {
        let mut class = self;
        class.instance_methods.insert(name.to_string(), InstanceMethod::Iterate(f));
        class
    }

    /// Registers the class method `f` under `name`, replacing any class method of that name.
    pub fn add_class_method(self, name: &str, f: Invocable) -> (r: Class)
        requires
            self.wf(),
        ensures
            r.wf(),
            r.class_methods@ == self.class_methods@.insert(name@, ClassMethod { function: f }),
            r.name == self.name,
            r.constructor == self.constructor,
            r.attributes == self.attributes,
            r.instance_methods == self.instance_methods,
            r.type_id == self.type_id,
            r.equality_check == self.equality_check,
    {
        let mut class = self;
        class.class_methods.insert(name.to_string(), ClassMethod { function: f });
        class
    }

    /// Ends the building of the descriptor, which is then ready to register.
    pub fn erase_type(self) -> (r: Class)
        ensures
            r == self,
    {
        Class {
            name: self.name,
            constructor: self.constructor,
            attributes: self.attributes,
            instance_methods: self.instance_methods,
            class_methods: self.class_methods,
            type_id: self.type_id,
            equality_check: self.equality_check,
        }
    }

    /// Ends the building of the descriptor, which is then ready to register.
    pub fn build(self) -> (r: Class)
        ensures
            r == self,
    {
        self.erase_type()
    }

    /// Whether this descriptor describes the type `type_id`.
    pub fn is_class(&self, type_id: u64) -> (r: bool)
        ensures
            r == (type_id == self.type_id),
    {
        type_id == self.type_id
    }

    /// This descriptor accepts `instance`: the value it holds is of this
    /// descriptor's type.
    pub open spec fn accepts(&self, instance: &Instance) -> bool {
        instance.instance.type_token() == self.type_id
    }

    /// Whether the value held by `instance` is of this descriptor's type, whichever
    /// descriptor made the instance.
    pub fn is_instance(&self, instance: &Instance) -> (r: bool)
        ensures
            r == self.accepts(instance),
    {
        instance.instance.type_id() == self.type_id
    }

    /// The object that `value` holds, if it is of this descriptor's type.
    pub open spec fn downcast(&self, value: Native) -> Option<Object> {
        match value {
            Native::Object(o) => if o.type_id == self.type_id { Some(o) } else { None },
            Native::Class(_) => None,
        }
    }

    /// What comparing the values of `a` and `b` under this descriptor gives.
    pub open spec fn equals_spec(&self, a: &Instance, b: &Instance) -> Result<bool, OsoError> {
        match self.equality_check {
            EqualityCheck::Unsupported => Err(
                OsoError::UnsupportedOperation { operation: arbitrary(), class_name: arbitrary() },
            ),
            EqualityCheck::Native => match (self.downcast(a.instance), self.downcast(b.instance)) {
                (Some(x), Some(y)) => Ok(x.fields@ == y.fields@),
                _ => Err(OsoError::DowncastFailed { class_name: arbitrary() }),
            },
        }
    }

    /// Compares the values held by `instance` and `other` with this descriptor's
    /// equality.
    pub fn equals(&self, instance: &Instance, other: &Instance) -> (r: Result<bool, OsoError>)
        ensures
            self.equality_check == EqualityCheck::Unsupported ==> (r matches Err(
                OsoError::UnsupportedOperation { operation, class_name },
            ) && operation@ == "equals"@ && class_name@ == self.name@),
            self.equality_check == EqualityCheck::Native ==> match (
                self.downcast(instance.instance),
                self.downcast(other.instance),
            ) {
                (Some(x), Some(y)) => r == Ok::<bool, OsoError>(x.fields@ == y.fields@),
                _ => r matches Err(OsoError::DowncastFailed { class_name }) && class_name@
                    == self.name@,
            },
    {
        match self.equality_check {
            EqualityCheck::Unsupported => equality_not_supported(self.name.clone()),
            EqualityCheck::Native => {
                match (&instance.instance, &other.instance) {
                    (Native::Object(a), Native::Object(b)) => {
                        if a.type_id == self.type_id && b.type_id == self.type_id {
                            Ok(a.same_fields(b))
                        } else {
                            Err(OsoError::DowncastFailed { class_name: self.name.clone() })
                        }
                    },
                    _ => Err(OsoError::DowncastFailed { class_name: self.name.clone() }),
                }
            },
        }
    }

    /// A copy of the descriptor.
    pub fn copy(&self) -> (r: Class)
        requires
            self.wf(),
        ensures
            r.wf(),
            r.same_as(self),
    {
        let constructor = match &self.constructor {
            Some(c) => Some(c.copy()),
            None => None,
        };
        Class {
            name: self.name.clone(),
            constructor,
            attributes: self.attributes.copy(),
            instance_methods: self.instance_methods.copy(),
            class_methods: self.class_methods.copy(),
            type_id: self.type_id,
            equality_check: self.equality_check,
        }
    }

    /// Wraps `value` as an instance of this descriptor, with a snapshot of its
    /// tables.
    pub fn cast_to_instance(&self, value: Native) -> (r: Instance)
        requires
            self.wf(),
        ensures
            r.wf(),
            r.name@ == self.name@,
            r.instance == value,
            r.attributes@ == self.attributes@,
            r.methods@ == self.instance_methods@,
            r.class.same_as(self),
    {
        Instance {
            name: self.name.clone(),
            instance: value,
            attributes: self.attributes.copy(),
            methods: self.instance_methods.copy(),
            class: self.copy(),
        }
    }

    /// `i` is an instance of this descriptor that holds a new object with `fields`.
    pub open spec fn made(&self, i: Instance, fields: Seq<Scalar>) -> bool {
        &&& i.wf()
        &&& i.instance matches Native::Object(o) && o@ == (self.type_id, fields)
        &&& i.name@ == self.name@
        &&& i.attributes@ == self.attributes@
        &&& i.methods@ == self.instance_methods@
        &&& i.class.same_as(self)
    }

    /// Constructs a value of the type from `args` and wraps it as an instance.
    /// Fails when the descriptor has no constructor, or when a record
    /// constructor gets another number of arguments than it takes.
    pub fn init(&self, args: Vec<Scalar>) -> (r: Result<Instance, OsoError>)
        requires
            self.wf(),
        ensures
            match constructor_model(self.constructor) {
                None => r matches Err(OsoError::MissingConstructor { class_name }) && class_name@
                    == self.name@,
                Some(ConstructorModel::Default(fields)) => r is Ok && self.made(r->Ok_0, fields),
                Some(ConstructorModel::Record(n)) => if args.len() == n {
                    r is Ok && self.made(r->Ok_0, args@)
                } else {
                    r matches Err(OsoError::WrongArity { class_name, expected, found })
                        && class_name@ == self.name@ && expected == n && found == args.len()
                },
            },
    {
        match &self.constructor {
            None => Err(OsoError::MissingConstructor { class_name: self.name.clone() }),
            Some(Constructor::Default(fields)) => {
                let object = Object { type_id: self.type_id, fields: copy_fields(fields) };
                Ok(self.cast_to_instance(Native::Object(object)))
            },
            Some(Constructor::Record(n)) => {
                if args.len() == *n {
                    let object = Object { type_id: self.type_id, fields: args };
                    Ok(self.cast_to_instance(Native::Object(object)))
                } else {
                    Err(
                        OsoError::WrongArity {
                            class_name: self.name.clone(),
                            expected: *n,
                            found: args.len(),
                        },
                    )
                }
            },
        }
    }
}

/// A descriptor accepts every instance it wraps around a value of its own type,
/// and no descriptor accepts a wrapped value of another type.
pub proof fn lemma_cast_then_is_instance(d: Class, other: Class, value: Native, i: Instance)
    requires
        value.type_token() == d.type_id,
        other.type_id != d.type_id,
        i.instance == value,
    ensures
        d.accepts(&i),
        !other.accepts(&i),
{
}

/// Registering two methods under one name keeps the second: the table is the
/// same as after registering the second alone.
pub proof fn lemma_last_registration_wins(
    methods: Map<Seq<char>, InstanceMethod>,
    name: Seq<char>,
    first: InstanceMethod,
    second: InstanceMethod,
)
    ensures
        methods.insert(name, first).insert(name, second) == methods.insert(name, second),
        methods.insert(name, first).insert(name, second)[name] == second,
{
    assert(methods.insert(name, first).insert(name, second) =~= methods.insert(name, second));
}

/// An instance keeps the method table its descriptor had when it was made: a
/// method registered later on a copy of the descriptor reaches the copy and
/// not the instance.
pub proof fn lemma_instance_keeps_snapshot(
    d: Class,
    i: Instance,
    later: Class,
    name: Seq<char>,
    method: InstanceMethod,
)
    requires
        i.methods@ == d.instance_methods@,
        later.instance_methods@ == d.instance_methods@.insert(name, method),
        !(d.instance_methods@.contains_key(name) && d.instance_methods@[name] == method),
    ensures
        i.methods@ == d.instance_methods@,
        later.instance_methods@[name] == method,
        i.methods@ != later.instance_methods@,
{
    assert(later.instance_methods@.contains_key(name));
}

impl Instance {
    /// The tables are well formed.
    pub open spec fn wf(&self) -> bool {
        &&& self.attributes.wf()
        &&& self.methods.wf()
        &&& self.class.wf()
    }

    /// Compares this instance's value with `other`'s, with the equality of the
    /// descriptor that made this instance.
    pub fn equals(&self, other: &Instance) -> (r: Result<bool, OsoError>)
        ensures
            self.class.equality_check == EqualityCheck::Unsupported ==> (r matches Err(
                OsoError::UnsupportedOperation { operation, class_name },
            ) && operation@ == "equals"@ && class_name@ == self.class.name@),
            self.class.equality_check == EqualityCheck::Native ==> match (
                self.class.downcast(self.instance),
                self.class.downcast(other.instance),
            ) {
                (Some(x), Some(y)) => r == Ok::<bool, OsoError>(x.fields@ == y.fields@),
                _ => r matches Err(OsoError::DowncastFailed { class_name }) && class_name@
                    == self.class.name@,
            },
    {
        self.class.equals(self, other)
    }
}

} // verus!
