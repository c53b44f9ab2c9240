//! Configuration builders that bootstrap standard-library objects: plain
//! fluent configuration feeding the record factories, no algorithmic
//! content of their own.

use vstd::prelude::*;
use crate::context::Context;
use crate::data::{InternalObjectMethods, ObjectData, ObjectKind};
use crate::object::{JsPrototype, Object};
use crate::payload::{Captures, Function};
use crate::property::{
    Attribute, KeyModel, PropertyDescriptor, PropertyKey,
};
use crate::value::{JsObject, JsString, JsValue, NativeFunction};

verus! {

/// A full data descriptor: a value and the three flags, no accessors.
pub open spec fn data_descriptor(v: JsValue, w: bool, e: bool, c: bool) -> PropertyDescriptor {
    PropertyDescriptor {
        value: Some(v),
        writable: Some(w),
        enumerable: Some(e),
        configurable: Some(c),
        getter: None,
        setter: None,
    }
}

/// The descriptor a run of pending `(key, descriptor)` insertions leaves
/// under key `k`: the last one written, or nothing.
pub open spec fn pending_lookup(
    s: Seq<(PropertyKey, PropertyDescriptor)>,
    k: KeyModel,
) -> Option<PropertyDescriptor>
    decreases s.len(),
{
    if s.len() == 0 {
        None
    } else if s.last().0@ == k {
        Some(s.last().1)
    } else {
        pending_lookup(s.drop_last(), k)
    }
}

/// What a freshly built native-function object looks like: the callable
/// payload `f` under the table matching its constructibility, hanging
/// off `proto`, carrying exactly a `name` and a `length` property.
pub open spec fn is_native_function_record(
    o: Object,
    f: Function,
    name: Seq<char>,
    length: usize,
    proto: JsObject,
) -> bool {
    &&& o.wf()
    &&& *o.data_spec().kind_spec() matches ObjectKind::Function(g) && g == f
    &&& o.data_spec().table_spec() == (if f.is_constructor_spec() {
        InternalObjectMethods::Constructor
    } else {
        InternalObjectMethods::Function
    })
    &&& o.prototype_spec() == Some(proto)
    &&& o.extensible_spec()
    &&& (o.properties_spec().spec_lookup(KeyModel::Text("name"@)) matches Some(d)
        && d.value matches Some(JsValue::String(s)) && s@ == name
        && d.writable == Some(false) && d.enumerable == Some(false)
        && d.configurable == Some(true) && d.getter is None && d.setter is None)
    &&& o.properties_spec().spec_lookup(KeyModel::Text("length"@)) == Some(
        data_descriptor(JsValue::Integer(length as i64), false, false, true),
    )
    &&& forall|k: KeyModel|
        k != KeyModel::Text("name"@) && k != KeyModel::Text("length"@)
            ==> o.properties_spec().spec_lookup(k) is None
}

/// The function binding: the property key a function object is stored
/// under, and the function's `name` property, which may differ.
#[derive(Debug)]
pub struct FunctionBinding {
    pub binding: PropertyKey,
    pub name: JsString,
}

impl FunctionBinding {
    /// A binding whose key and function name are the same text.
    pub fn from_name(name: JsString) -> (r: FunctionBinding)
        ensures
            r.binding@ == KeyModel::Text(name@),
            r.name@ == name@,
    {
        let binding = PropertyKey::String(name.clone());
        FunctionBinding { binding, name }
    }

    /// A binding whose key and function name are given separately.
    pub fn with_binding(binding: PropertyKey, name: JsString) -> (r: FunctionBinding)
        ensures
            r.binding@ == binding@,
            r.name@ == name@,
    {
        FunctionBinding { binding, name }
    }
}

/// The payload with its constructibility flag replaced.
pub open spec fn with_constructor(f: Function, yes: bool) -> Function {
    match f {
        Function::Native { function, .. } => Function::Native { function, constructor: yes },
        Function::Closure { function, captures, .. } => Function::Closure {
            function,
            constructor: yes,
            captures,
        },
    }
}

/// Builder for native function objects: collects the callable payload,
/// the `name` and `length` properties, and the constructibility flag,
/// then builds the object record.
#[derive(Debug)]
pub struct FunctionBuilder {
    pub function: Function,
    pub name: JsString,
    pub length: usize,
}

impl FunctionBuilder {
    /// Starts a builder for a plain native function.
    pub fn native(function: NativeFunction) -> (r: FunctionBuilder)
        ensures
            r.function == (Function::Native { function, constructor: false }),
            r.name@ == Seq::<char>::empty(),
            r.length == 0,
    {
        FunctionBuilder {
            function: Function::Native { function, constructor: false },
            name: String::new(),
            length: 0,
        }
    }

    /// Starts a builder for a closure function with nothing captured:
    /// the capture cell is empty, under the reserved tag of the unit
    /// type.
    pub fn closure(function: NativeFunction) -> (r: FunctionBuilder)
        ensures
            r.function matches Function::Closure { function: f, constructor, captures }
                && f == function && !constructor && captures.type_tag == 0
                && captures.data@ == Seq::<u64>::empty()
                && captures.children@ == Seq::<JsObject>::empty(),
            r.name@ == Seq::<char>::empty(),
            r.length == 0,
    {
        FunctionBuilder {
            function: Function::Closure {
                function,
                constructor: false,
                captures: Captures::new(0, Vec::new(), Vec::new()),
            },
            name: String::new(),
            length: 0,
        }
    }

    /// Starts a builder for a closure function over captured state.  At
    /// call time the callee recovers the state through
    /// [`Captures::downcast_ref`] with the tag it was built with; a
    /// mismatch there is the caller's configuration bug, reported as a
    /// typed failure, never a panic.
    pub fn closure_with_captures(function: NativeFunction, captures: Captures) -> (r:
        FunctionBuilder)
        ensures
            r.function == (Function::Closure { function, constructor: false, captures }),
            r.name@ == Seq::<char>::empty(),
            r.length == 0,
    {
        FunctionBuilder {
            function: Function::Closure { function, constructor: false, captures },
            name: String::new(),
            length: 0,
        }
    }

    /// Sets the `name` property of the function object.  The default is
    /// the empty string.
    pub fn name(self, name: JsString) -> (r: FunctionBuilder)
        ensures
            r == (FunctionBuilder { name, ..self }),
    {
        FunctionBuilder { name, ..self }
    }

    /// Sets the `length` property of the function object: how many
    /// arguments it expects.  The default is zero.
    pub fn length(self, length: usize) -> (r: FunctionBuilder)
        ensures
            r == (FunctionBuilder { length, ..self }),
    {
        FunctionBuilder { length, ..self }
    }

    /// Sets whether the function may be called with `new`.  The default
    /// is `false`.
    pub fn constructor(self, yes: bool) -> (r: FunctionBuilder)
        ensures
            r.function == with_constructor(self.function, yes),
            r.name == self.name,
            r.length == self.length,
    {
        let function = match self.function {
            Function::Native { function, .. } => Function::Native { function, constructor: yes },
            Function::Closure { function, captures, .. } => Function::Closure {
                function,
                constructor: yes,
                captures,
            },
        };
        FunctionBuilder { function, ..self }
    }

    /// Builds the function object: the payload under its one correct
    /// table, hanging off the bootstrap function prototype, with its
    /// `name` and `length` properties filled in.
    pub fn build(self, ctx: &mut Context) -> (r: JsObject)
        requires
            old(ctx).wf(),
            self.length <= i64::MAX as usize,
        ensures
            final(ctx).wf(),
            r.index == old(ctx).objects_spec().len(),
            final(ctx).objects_spec().len() == old(ctx).objects_spec().len() + 1,
            forall|i: int|
                0 <= i < old(ctx).objects_spec().len() ==> final(ctx).objects_spec()[i] == old(
                    ctx,
                ).objects_spec()[i],
            is_native_function_record(
                final(ctx).objects_spec().last(),
                self.function,
                self.name@,
                self.length,
                old(ctx).function_prototype_spec(),
            ),
            final(ctx).object_prototype_spec() == old(ctx).object_prototype_spec(),
            final(ctx).function_prototype_spec() == old(ctx).function_prototype_spec(),
    {
        proof {
            reveal_strlit("name");
            reveal_strlit("length");
            assert("name"@.len() == 4 && "length"@.len() == 6);
        }
        let proto = ctx.function_prototype();
        let mut record = Object::from_proto_and_data(
            Some(proto),
            ObjectData::function(self.function),
        );
        let name_descriptor = PropertyDescriptor::new().writable(false).enumerable(
            false,
        ).configurable(true).value(JsValue::String(self.name));
        record.insert_property(PropertyKey::String("name".to_owned()), name_descriptor);
        let length_descriptor = PropertyDescriptor::new().writable(false).enumerable(
            false,
        ).configurable(true).value(JsValue::Integer(self.length as i64));
        record.insert_property(PropertyKey::String("length".to_owned()), length_descriptor);
        ctx.register(record)
    }
}

/// Builder for plain objects with properties: an ordinary object off the
/// bootstrap object prototype, filled one property at a time.
#[derive(Debug)]
pub struct ObjectInitializer {
    pub object: Object,
}

impl ObjectInitializer {
    /// Starts with a fresh ordinary object.
    pub fn new(ctx: &Context) -> (r: ObjectInitializer)
        ensures
            r.object.wf(),
            *r.object.data_spec().kind_spec() is Ordinary,
            r.object.prototype_spec() == Some(ctx.object_prototype_spec()),
            r.object.extensible_spec(),
            forall|k: KeyModel| r.object.properties_spec().spec_lookup(k) is None,
    {
        ObjectInitializer {
            object: Object::from_proto_and_data(
                Some(ctx.object_prototype()),
                ObjectData::ordinary(),
            ),
        }
    }

    /// Adds a function-valued property: builds the function object in
    /// the arena and stores its handle under the binding's key, writable
    /// and configurable but not enumerable.
    pub fn function(
        &mut self,
        ctx: &mut Context,
        function: NativeFunction,
        binding: FunctionBinding,
        length: usize,
    )
        requires
            old(self).object.wf(),
            old(ctx).wf(),
            length <= i64::MAX as usize,
        ensures
            final(self).object.wf(),
            final(ctx).wf(),
            final(ctx).objects_spec().len() == old(ctx).objects_spec().len() + 1,
            forall|i: int|
                0 <= i < old(ctx).objects_spec().len() ==> final(ctx).objects_spec()[i] == old(
                    ctx,
                ).objects_spec()[i],
            is_native_function_record(
                final(ctx).objects_spec().last(),
                (Function::Native { function, constructor: false }),
                binding.name@,
                length,
                old(ctx).function_prototype_spec(),
            ),
            final(self).object.properties_spec().spec_lookup(binding.binding@) == Some(
                data_descriptor(
                    JsValue::Object(
                        JsObject { index: old(ctx).objects_spec().len() as usize },
                    ),
                    true,
                    false,
                    true,
                ),
            ),
            forall|k: KeyModel|
                k != binding.binding@ ==> final(self).object.properties_spec().spec_lookup(k)
                    == old(self).object.properties_spec().spec_lookup(k),
            final(self).object.data_spec() == old(self).object.data_spec(),
            final(self).object.prototype_spec() == old(self).object.prototype_spec(),
            final(self).object.extensible_spec() == old(self).object.extensible_spec(),
            final(ctx).object_prototype_spec() == old(ctx).object_prototype_spec(),
            final(ctx).function_prototype_spec() == old(ctx).function_prototype_spec(),
    {
        let handle = FunctionBuilder::native(function).name(binding.name).length(
            length,
        ).constructor(false).build(ctx);
        let descriptor = PropertyDescriptor::new().value(JsValue::Object(handle)).writable(
            true,
        ).enumerable(false).configurable(true);
        self.object.insert_property(binding.binding, descriptor);
    }

    /// Adds a data property with the given value and attributes.
    pub fn property(&mut self, key: PropertyKey, value: JsValue, attribute: Attribute)
        requires
            old(self).object.wf(),
        ensures
            final(self).object.wf(),
            final(self).object.properties_spec().spec_lookup(key@) == Some(
                data_descriptor(
                    value,
                    attribute.writable,
                    attribute.enumerable,
                    attribute.configurable,
                ),
            ),
            forall|k: KeyModel|
                k != key@ ==> final(self).object.properties_spec().spec_lookup(k) == old(
                    self,
                ).object.properties_spec().spec_lookup(k),
            final(self).object.data_spec() == old(self).object.data_spec(),
            final(self).object.prototype_spec() == old(self).object.prototype_spec(),
            final(self).object.extensible_spec() == old(self).object.extensible_spec(),
    {
        let descriptor = PropertyDescriptor::new().value(value).writable(
            attribute.writable(),
        ).enumerable(attribute.enumerable()).configurable(attribute.configurable());
        self.object.insert(key, descriptor);
    }

    /// Moves the configured object into the arena and hands back its
    /// handle.
    pub fn build(self, ctx: &mut Context) -> (r: JsObject)
        requires
            old(ctx).wf(),
            self.object.wf(),
        ensures
            final(ctx).wf(),
            r.index == old(ctx).objects_spec().len(),
            final(ctx).objects_spec() == old(ctx).objects_spec().push(self.object),
            final(ctx).object_prototype_spec() == old(ctx).object_prototype_spec(),
            final(ctx).function_prototype_spec() == old(ctx).function_prototype_spec(),
    {
        ctx.register(self.object)
    }
}

/// Writes a run of pending `(key, descriptor)` pairs into a record, in
/// order, each overwriting any earlier binding of its key.
fn insert_pending(record: &mut Object, mut pending: Vec<(PropertyKey, PropertyDescriptor)>)
    requires
        old(record).wf(),
    ensures
        final(record).wf(),
        forall|k: KeyModel|
            final(record).properties_spec().spec_lookup(k) == (match pending_lookup(
                pending@,
                k,
            ) {
                Some(d) => Some(d),
                None => old(record).properties_spec().spec_lookup(k),
            }),
        final(record).data_spec() == old(record).data_spec(),
        final(record).prototype_spec() == old(record).prototype_spec(),
        final(record).extensible_spec() == old(record).extensible_spec(),
{
    let ghost all = pending@;
    let ghost base = *old(record);
    let ghost mut i: int = 0;
    while pending.len() > 0
        invariant
            record.wf(),
            0 <= i <= all.len(),
            pending@ == all.skip(i),
            forall|k: KeyModel|
                record.properties_spec().spec_lookup(k) == (match pending_lookup(
                    all.take(i),
                    k,
                ) {
                    Some(d) => Some(d),
                    None => base.properties_spec().spec_lookup(k),
                }),
            record.data_spec() == base.data_spec(),
            record.prototype_spec() == base.prototype_spec(),
            record.extensible_spec() == base.extensible_spec(),
        decreases pending@.len(),
    {
        let (key, descriptor) = pending.remove(0);
        proof {
            assert(all.skip(i).drop_first() =~= all.skip(i + 1));
            assert(all[i] == (key, descriptor));
        }
        record.insert_property(key, descriptor);
        proof {
            assert(all.take(i + 1).drop_last() =~= all.take(i));
            assert(all.take(i + 1).last() == (key, descriptor));
            i = i + 1;
        }
    }
    proof {
        assert(all.take(all.len() as int) =~= all);
    }
}

/// Builder for constructor function objects, like the standard `Array`
/// constructor: one callable record paired with its `prototype` record,
/// the two linked through the `prototype` and `constructor` properties.
#[derive(Debug)]
pub struct ConstructorBuilder {
    pub constructor_function: NativeFunction,
    /// Properties queued for the prototype record, in insertion order.
    pub prototype_properties: Vec<(PropertyKey, PropertyDescriptor)>,
    /// Properties queued for the constructor record, in insertion order.
    pub constructor_properties: Vec<(PropertyKey, PropertyDescriptor)>,
    pub name: JsString,
    pub length: usize,
    pub callable: bool,
    pub constructor: bool,
    /// The prototype the new `prototype` record inherits from; the
    /// bootstrap object prototype when unset.
    pub inherit: Option<JsPrototype>,
    /// The prototype link of the constructor record itself; the
    /// bootstrap function prototype when unset.
    pub custom_prototype: Option<JsPrototype>,
}

impl ConstructorBuilder {
    /// Starts a builder around the native function the constructor
    /// runs.
    pub fn new(constructor: NativeFunction) -> (r: ConstructorBuilder)
        ensures
            r.constructor_function == constructor,
            r.prototype_properties@ == Seq::<(PropertyKey, PropertyDescriptor)>::empty(),
            r.constructor_properties@ == Seq::<(PropertyKey, PropertyDescriptor)>::empty(),
            r.name@ == Seq::<char>::empty(),
            r.length == 0,
            r.callable,
            r.constructor,
            r.inherit is None,
            r.custom_prototype is None,
    {
        ConstructorBuilder {
            constructor_function: constructor,
            prototype_properties: Vec::new(),
            constructor_properties: Vec::new(),
            name: String::new(),
            length: 0,
            callable: true,
            constructor: true,
            inherit: None,
            custom_prototype: None,
        }
    }

    /// Queues a method for the constructor's prototype: builds the
    /// function object now and queues its handle under the binding's
    /// key, writable and configurable but not enumerable.
    pub fn method(
        &mut self,
        ctx: &mut Context,
        function: NativeFunction,
        binding: FunctionBinding,
        length: usize,
    )
        requires
            old(ctx).wf(),
            length <= i64::MAX as usize,
        ensures
            final(ctx).wf(),
            final(ctx).objects_spec().len() == old(ctx).objects_spec().len() + 1,
            forall|i: int|
                0 <= i < old(ctx).objects_spec().len() ==> final(ctx).objects_spec()[i] == old(
                    ctx,
                ).objects_spec()[i],
            is_native_function_record(
                final(ctx).objects_spec().last(),
                (Function::Native { function, constructor: false }),
                binding.name@,
                length,
                old(ctx).function_prototype_spec(),
            ),
            final(self).prototype_properties@ == old(self).prototype_properties@.push(
                (
                    binding.binding,
                    data_descriptor(
                        JsValue::Object(
                            JsObject { index: old(ctx).objects_spec().len() as usize },
                        ),
                        true,
                        false,
                        true,
                    ),
                ),
            ),
            final(self).constructor_properties == old(self).constructor_properties,
            final(self).constructor_function == old(self).constructor_function,
            final(self).name == old(self).name,
            final(self).length == old(self).length,
            final(self).callable == old(self).callable,
            final(self).constructor == old(self).constructor,
            final(self).inherit == old(self).inherit,
            final(self).custom_prototype == old(self).custom_prototype,
            final(ctx).object_prototype_spec() == old(ctx).object_prototype_spec(),
            final(ctx).function_prototype_spec() == old(ctx).function_prototype_spec(),
    {
        let handle = FunctionBuilder::native(function).name(binding.name).length(
            length,
        ).constructor(false).build(ctx);
        let descriptor = PropertyDescriptor::new().value(JsValue::Object(handle)).writable(
            true,
        ).enumerable(false).configurable(true);
        self.prototype_properties.push((binding.binding, descriptor));
    }

    /// Queues a static method for the constructor object itself, under
    /// the same attributes as [`ConstructorBuilder::method`].
    pub fn static_method(
        &mut self,
        ctx: &mut Context,
        function: NativeFunction,
        binding: FunctionBinding,
        length: usize,
    )
        requires
            old(ctx).wf(),
            length <= i64::MAX as usize,
        ensures
            final(ctx).wf(),
            final(ctx).objects_spec().len() == old(ctx).objects_spec().len() + 1,
            forall|i: int|
                0 <= i < old(ctx).objects_spec().len() ==> final(ctx).objects_spec()[i] == old(
                    ctx,
                ).objects_spec()[i],
            is_native_function_record(
                final(ctx).objects_spec().last(),
                (Function::Native { function, constructor: false }),
                binding.name@,
                length,
                old(ctx).function_prototype_spec(),
            ),
            final(self).constructor_properties@ == old(self).constructor_properties@.push(
                (
                    binding.binding,
                    data_descriptor(
                        JsValue::Object(
                            JsObject { index: old(ctx).objects_spec().len() as usize },
                        ),
                        true,
                        false,
                        true,
                    ),
                ),
            ),
            final(self).prototype_properties == old(self).prototype_properties,
            final(self).constructor_function == old(self).constructor_function,
            final(self).name == old(self).name,
            final(self).length == old(self).length,
            final(self).callable == old(self).callable,
            final(self).constructor == old(self).constructor,
            final(self).inherit == old(self).inherit,
            final(self).custom_prototype == old(self).custom_prototype,
            final(ctx).object_prototype_spec() == old(ctx).object_prototype_spec(),
            final(ctx).function_prototype_spec() == old(ctx).function_prototype_spec(),
    {
        let handle = FunctionBuilder::native(function).name(binding.name).length(
            length,
        ).constructor(false).build(ctx);
        let descriptor = PropertyDescriptor::new().value(JsValue::Object(handle)).writable(
            true,
        ).enumerable(false).configurable(true);
        self.constructor_properties.push((binding.binding, descriptor));
    }

    /// Queues a data property for the constructor's prototype.
    pub fn property(&mut self, key: PropertyKey, value: JsValue, attribute: Attribute)
        ensures
            final(self).prototype_properties@ == old(self).prototype_properties@.push(
                (
                    key,
                    data_descriptor(
                        value,
                        attribute.writable,
                        attribute.enumerable,
                        attribute.configurable,
                    ),
                ),
            ),
            final(self).constructor_properties == old(self).constructor_properties,
            final(self).constructor_function == old(self).constructor_function,
            final(self).name == old(self).name,
            final(self).length == old(self).length,
            final(self).callable == old(self).callable,
            final(self).constructor == old(self).constructor,
            final(self).inherit == old(self).inherit,
            final(self).custom_prototype == old(self).custom_prototype,
    {
        let descriptor = PropertyDescriptor::new().value(value).writable(
            attribute.writable(),
        ).enumerable(attribute.enumerable()).configurable(attribute.configurable());
        self.prototype_properties.push((key, descriptor));
    }

    /// Queues a static data property for the constructor object itself.
    pub fn static_property(&mut self, key: PropertyKey, value: JsValue, attribute: Attribute)
        ensures
            final(self).constructor_properties@ == old(self).constructor_properties@.push(
                (
                    key,
                    data_descriptor(
                        value,
                        attribute.writable,
                        attribute.enumerable,
                        attribute.configurable,
                    ),
                ),
            ),
            final(self).prototype_properties == old(self).prototype_properties,
            final(self).constructor_function == old(self).constructor_function,
            final(self).name == old(self).name,
            final(self).length == old(self).length,
            final(self).callable == old(self).callable,
            final(self).constructor == old(self).constructor,
            final(self).inherit == old(self).inherit,
            final(self).custom_prototype == old(self).custom_prototype,
    {
        let descriptor = PropertyDescriptor::new().value(value).writable(
            attribute.writable(),
        ).enumerable(attribute.enumerable()).configurable(attribute.configurable());
        self.constructor_properties.push((key, descriptor));
    }

    /// Queues an accessor property for the constructor's prototype.
    pub fn accessor(
        &mut self,
        key: PropertyKey,
        get: Option<JsObject>,
        set_to: Option<JsObject>,
        attribute: Attribute,
    )
        ensures
            final(self).prototype_properties@ == old(self).prototype_properties@.push(
                (
                    key,
                    (PropertyDescriptor {
                        value: None,
                        writable: None,
                        enumerable: Some(attribute.enumerable),
                        configurable: Some(attribute.configurable),
                        getter: get,
                        setter: set_to,
                    }),
                ),
            ),
            final(self).constructor_properties == old(self).constructor_properties,
            final(self).constructor_function == old(self).constructor_function,
            final(self).name == old(self).name,
            final(self).length == old(self).length,
            final(self).callable == old(self).callable,
            final(self).constructor == old(self).constructor,
            final(self).inherit == old(self).inherit,
            final(self).custom_prototype == old(self).custom_prototype,
    {
        let descriptor = PropertyDescriptor::new().maybe_get(get).maybe_set(
            set_to,
        ).enumerable(attribute.enumerable()).configurable(attribute.configurable());
        self.prototype_properties.push((key, descriptor));
    }

    /// Queues a static accessor property for the constructor object
    /// itself.
    pub fn static_accessor(
        &mut self,
        key: PropertyKey,
        get: Option<JsObject>,
        set_to: Option<JsObject>,
        attribute: Attribute,
    )
        ensures
            final(self).constructor_properties@ == old(self).constructor_properties@.push(
                (
                    key,
                    (PropertyDescriptor {
                        value: None,
                        writable: None,
                        enumerable: Some(attribute.enumerable),
                        configurable: Some(attribute.configurable),
                        getter: get,
                        setter: set_to,
                    }),
                ),
            ),
            final(self).prototype_properties == old(self).prototype_properties,
            final(self).constructor_function == old(self).constructor_function,
            final(self).name == old(self).name,
            final(self).length == old(self).length,
            final(self).callable == old(self).callable,
            final(self).constructor == old(self).constructor,
            final(self).inherit == old(self).inherit,
            final(self).custom_prototype == old(self).custom_prototype,
    {
        let descriptor = PropertyDescriptor::new().maybe_get(get).maybe_set(
            set_to,
        ).enumerable(attribute.enumerable()).configurable(attribute.configurable());
        self.constructor_properties.push((key, descriptor));
    }

    /// Queues an arbitrary descriptor for the constructor's prototype.
    pub fn property_descriptor(&mut self, key: PropertyKey, property: PropertyDescriptor)
        ensures
            final(self).prototype_properties@ == old(self).prototype_properties@.push(
                (key, property),
            ),
            final(self).constructor_properties == old(self).constructor_properties,
            final(self).constructor_function == old(self).constructor_function,
            final(self).name == old(self).name,
            final(self).length == old(self).length,
            final(self).callable == old(self).callable,
            final(self).constructor == old(self).constructor,
            final(self).inherit == old(self).inherit,
            final(self).custom_prototype == old(self).custom_prototype,
    {
        self.prototype_properties.push((key, property));
    }

    /// Queues an arbitrary static descriptor for the constructor object
    /// itself.
    pub fn static_property_descriptor(&mut self, key: PropertyKey, property: PropertyDescriptor)
        ensures
            final(self).constructor_properties@ == old(self).constructor_properties@.push(
                (key, property),
            ),
            final(self).prototype_properties == old(self).prototype_properties,
            final(self).constructor_function == old(self).constructor_function,
            final(self).name == old(self).name,
            final(self).length == old(self).length,
            final(self).callable == old(self).callable,
            final(self).constructor == old(self).constructor,
            final(self).inherit == old(self).inherit,
            final(self).custom_prototype == old(self).custom_prototype,
    {
        self.constructor_properties.push((key, property));
    }

    /// Sets how many arguments the constructor function takes.  The
    /// default is zero.
    pub fn length(&mut self, length: usize)
        ensures
            *final(self) == (ConstructorBuilder { length, ..*old(self) }),
    {
        self.length = length;
    }

    /// Sets the name of the constructor function.  The default is the
    /// empty string.
    pub fn name(&mut self, name: JsString)
        ensures
            *final(self) == (ConstructorBuilder { name, ..*old(self) }),
    {
        self.name = name;
    }

    /// Sets whether the constructor function can be called.  The
    /// default is `true`.
    pub fn callable(&mut self, callable: bool)
        ensures
            *final(self) == (ConstructorBuilder { callable, ..*old(self) }),
    {
        self.callable = callable;
    }

    /// Sets whether the constructor function can be called with `new`.
    /// The default is `true`.
    pub fn constructor(&mut self, constructor: bool)
        ensures
            *final(self) == (ConstructorBuilder { constructor, ..*old(self) }),
    {
        self.constructor = constructor;
    }

    /// Sets the prototype the new `prototype` record inherits from.
    /// The default is the bootstrap object prototype.
    pub fn inherit(&mut self, prototype: JsPrototype)
        ensures
            *final(self) == (ConstructorBuilder { inherit: Some(prototype), ..*old(self) }),
    {
        self.inherit = Some(prototype);
    }

    /// Sets the prototype link of the constructor record itself.  The
    /// default is the bootstrap function prototype.
    pub fn custom_prototype(&mut self, prototype: JsPrototype)
        ensures
            *final(self) == (ConstructorBuilder {
                custom_prototype: Some(prototype),
                ..*old(self)
            }),
    {
        self.custom_prototype = Some(prototype);
    }

    /// Builds the pair of records: first the prototype record, then the
    /// constructor record, and hands back the constructor's handle.
    ///
    /// The prototype record carries the queued prototype properties and
    /// then a `constructor` property pointing back at the constructor
    /// record.  The constructor record carries the callable payload
    /// under its one correct table, the queued static properties, then
    /// its `length`, `name` and `prototype` properties, the last
    /// pointing at the prototype record.
    pub fn build(self, ctx: &mut Context) -> (r: JsObject)
        requires
            old(ctx).wf(),
            self.length <= i64::MAX as usize,
            old(ctx).objects_spec().len() + 2 <= usize::MAX,
        ensures
            final(ctx).wf(),
            final(ctx).objects_spec().len() == old(ctx).objects_spec().len() + 2,
            forall|i: int|
                0 <= i < old(ctx).objects_spec().len() ==> final(ctx).objects_spec()[i] == old(
                    ctx,
                ).objects_spec()[i],
            r.index == old(ctx).objects_spec().len() + 1,
            ({
                let p = final(ctx).objects_spec()[old(ctx).objects_spec().len() as int];
                &&& p.wf()
                &&& *p.data_spec().kind_spec() is Ordinary
                &&& p.data_spec().table_spec() == InternalObjectMethods::Ordinary
                &&& p.extensible_spec()
                &&& p.prototype_spec() == (match self.inherit {
                    Some(proto) => proto,
                    None => Some(old(ctx).object_prototype_spec()),
                })
                &&& p.properties_spec().spec_lookup(KeyModel::Text("constructor"@)) == Some(
                    data_descriptor(JsValue::Object(r), true, false, true),
                )
                &&& forall|k: KeyModel|
                    k != KeyModel::Text("constructor"@)
                        ==> p.properties_spec().spec_lookup(k) == pending_lookup(
                        self.prototype_properties@,
                        k,
                    )
            }),
            ({
                let c = final(ctx).objects_spec().last();
                let proto_handle = JsObject {
                    index: old(ctx).objects_spec().len() as usize,
                };
                &&& c.wf()
                &&& *c.data_spec().kind_spec() matches ObjectKind::Function(f) && f == (
                Function::Native {
                    function: self.constructor_function,
                    constructor: self.constructor,
                })
                &&& c.data_spec().table_spec() == (if self.constructor {
                    InternalObjectMethods::Constructor
                } else {
                    InternalObjectMethods::Function
                })
                &&& c.extensible_spec()
                &&& c.prototype_spec() == (match self.custom_prototype {
                    Some(proto) => proto,
                    None => Some(old(ctx).function_prototype_spec()),
                })
                &&& c.properties_spec().spec_lookup(KeyModel::Text("length"@)) == Some(
                    data_descriptor(
                        JsValue::Integer(self.length as i64),
                        false,
                        false,
                        true,
                    ),
                )
                &&& (c.properties_spec().spec_lookup(KeyModel::Text("name"@)) matches Some(d)
                    && d.value matches Some(JsValue::String(s)) && s@ == self.name@
                    && d.writable == Some(false) && d.enumerable == Some(false)
                    && d.configurable == Some(true) && d.getter is None && d.setter is None)
                &&& c.properties_spec().spec_lookup(KeyModel::Text("prototype"@)) == Some(
                    data_descriptor(JsValue::Object(proto_handle), false, false, false),
                )
                &&& forall|k: KeyModel|
                    k != KeyModel::Text("length"@) && k != KeyModel::Text("name"@) && k
                        != KeyModel::Text("prototype"@)
                        ==> c.properties_spec().spec_lookup(k) == pending_lookup(
                        self.constructor_properties@,
                        k,
                    )
            }),
            final(ctx).object_prototype_spec() == old(ctx).object_prototype_spec(),
            final(ctx).function_prototype_spec() == old(ctx).function_prototype_spec(),
    {
        proof {
            reveal_strlit("constructor");
            reveal_strlit("length");
            reveal_strlit("name");
            reveal_strlit("prototype");
            assert("constructor"@.len() == 11 && "length"@.len() == 6 && "name"@.len() == 4
                && "prototype"@.len() == 9);
        }
        let proto_handle = JsObject { index: ctx.len() };
        let ctor_handle = JsObject { index: ctx.len() + 1 };

        // The prototype record: queued properties, then the back link.
        let proto_link = match self.inherit {
            Some(proto) => proto,
            None => Some(ctx.object_prototype()),
        };
        let mut prototype_record = Object::from_proto_and_data(
            proto_link,
            ObjectData::ordinary(),
        );
        insert_pending(&mut prototype_record, self.prototype_properties);
        prototype_record.insert_property(
            PropertyKey::String("constructor".to_owned()),
            PropertyDescriptor::new().value(JsValue::Object(ctor_handle)).writable(
                true,
            ).enumerable(false).configurable(true),
        );

        // The constructor record: the callable payload, queued static
        // properties, then `length`, `name` and the `prototype` link.
        let function = Function::Native {
            function: self.constructor_function,
            constructor: self.constructor,
        };
        let ctor_link = match self.custom_prototype {
            Some(proto) => proto,
            None => Some(ctx.function_prototype()),
        };
        let mut constructor_record = Object::from_proto_and_data(
            ctor_link,
            ObjectData::function(function),
        );
        insert_pending(&mut constructor_record, self.constructor_properties);
        constructor_record.insert_property(
            PropertyKey::String("length".to_owned()),
            PropertyDescriptor::new().value(JsValue::Integer(self.length as i64)).writable(
                false,
            ).enumerable(false).configurable(true),
        );
        constructor_record.insert_property(
            PropertyKey::String("name".to_owned()),
            PropertyDescriptor::new().value(JsValue::String(self.name)).writable(
                false,
            ).enumerable(false).configurable(true),
        );
        constructor_record.insert_property(
            PropertyKey::String("prototype".to_owned()),
            PropertyDescriptor::new().value(JsValue::Object(proto_handle)).writable(
                false,
            ).enumerable(false).configurable(false),
        );

        let registered_proto = ctx.register(prototype_record);
        let registered_ctor = ctx.register(constructor_record);
        proof {
            assert(registered_proto == proto_handle);
            assert(registered_ctor == ctor_handle);
        }
        registered_ctor
    }
}

} // verus!
