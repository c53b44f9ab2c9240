use boa_object::data::{InternalObjectMethods, ObjectData};
use boa_object::object::Object;
use boa_object::payload::{
    Arguments, ArrayBuffer, ArrayIterator, BoundFunction, Captures, Date, ForInIterator,
    Function, HostObject, IntegerIndexed, MapIterator, MappedArguments, NativeObject,
    OrderedMap, OrderedSet, PropertyNameKind, RegExp, RegExpStringIterator, SetIterator,
    StringIterator,
};
use boa_object::property::{PropertyDescriptor, PropertyKey};
use boa_object::value::{JsBigInt, JsObject, JsSymbol, JsValue, NativeFunction};

fn sample_array_iterator() -> ArrayIterator {
    ArrayIterator {
        array: JsValue::Object(JsObject { index: 0 }),
        next_index: 0,
        kind: PropertyNameKind::Value,
        done: false,
    }
}

fn sample_function(constructor: bool) -> Function {
    Function::Native { function: NativeFunction { registry_slot: 9 }, constructor }
}

/// One ObjectData per kind, labeled, with its documented table.
fn all_kinds() -> Vec<(ObjectData, InternalObjectMethods, &'static str)> {
    vec![
        (ObjectData::array(), InternalObjectMethods::ArrayExotic, "Array"),
        (
            ObjectData::array_iterator(sample_array_iterator()),
            InternalObjectMethods::Ordinary,
            "ArrayIterator",
        ),
        (
            ObjectData::array_buffer(ArrayBuffer { data: Some(vec![1, 2]) }),
            InternalObjectMethods::Ordinary,
            "ArrayBuffer",
        ),
        (
            ObjectData::map(OrderedMap { entries: vec![] }),
            InternalObjectMethods::Ordinary,
            "Map",
        ),
        (
            ObjectData::map_iterator(MapIterator {
                iterated_map: JsValue::Null,
                next_index: 0,
                kind: PropertyNameKind::KeyAndValue,
                done: false,
            }),
            InternalObjectMethods::Ordinary,
            "MapIterator",
        ),
        (
            ObjectData::reg_exp(Box::new(RegExp {
                source: "a+".to_string(),
                flags: "g".to_string(),
            })),
            InternalObjectMethods::Ordinary,
            "RegExp",
        ),
        (
            ObjectData::reg_exp_string_iterator(RegExpStringIterator {
                matcher: JsObject { index: 3 },
                string: "abc".to_string(),
                global: true,
                unicode: false,
                completed: false,
            }),
            InternalObjectMethods::Ordinary,
            "RegExpStringIterator",
        ),
        (
            ObjectData::big_int(JsBigInt { negative: false, digits: vec![42] }),
            InternalObjectMethods::Ordinary,
            "BigInt",
        ),
        (ObjectData::boolean(true), InternalObjectMethods::Ordinary, "Boolean"),
        (
            ObjectData::for_in_iterator(ForInIterator {
                object: JsValue::Null,
                visited_keys: vec![],
                remaining_keys: vec![],
                object_was_visited: false,
            }),
            InternalObjectMethods::Ordinary,
            "ForInIterator",
        ),
        (
            ObjectData::function(sample_function(false)),
            InternalObjectMethods::Function,
            "Function",
        ),
        (
            ObjectData::bound_function(
                BoundFunction {
                    target_function: JsObject { index: 1 },
                    this: JsValue::Undefined,
                    args: vec![],
                },
                false,
            ),
            InternalObjectMethods::BoundFunctionExotic,
            "BoundFunction",
        ),
        (
            ObjectData::set(OrderedSet { items: vec![] }),
            InternalObjectMethods::Ordinary,
            "Set",
        ),
        (
            ObjectData::set_iterator(SetIterator {
                iterated_set: JsValue::Null,
                next_index: 0,
                kind: PropertyNameKind::Value,
            }),
            InternalObjectMethods::Ordinary,
            "SetIterator",
        ),
        (
            ObjectData::string("hi".to_string()),
            InternalObjectMethods::StringExotic,
            "String",
        ),
        (
            ObjectData::string_iterator(StringIterator {
                string: JsValue::String("hi".to_string()),
                next_index: 0,
            }),
            InternalObjectMethods::Ordinary,
            "StringIterator",
        ),
        (
            ObjectData::number(0x4045000000000000),
            InternalObjectMethods::Ordinary,
            "Number",
        ),
        (
            ObjectData::symbol(JsSymbol { hash: 77, description: Some("sym".to_string()) }),
            InternalObjectMethods::Ordinary,
            "Symbol",
        ),
        (ObjectData::error(), InternalObjectMethods::Ordinary, "Error"),
        (ObjectData::ordinary(), InternalObjectMethods::Ordinary, "Ordinary"),
        (
            ObjectData::date(Date { instant: Some(0) }),
            InternalObjectMethods::Ordinary,
            "Date",
        ),
        (ObjectData::global(), InternalObjectMethods::Ordinary, "Global"),
        (
            ObjectData::arguments(Arguments::Unmapped),
            InternalObjectMethods::Ordinary,
            "Arguments",
        ),
        (
            ObjectData::native_object(HostObject { type_tag: 5, data: vec![], children: vec![] }),
            InternalObjectMethods::Ordinary,
            "NativeObject",
        ),
        (
            ObjectData::integer_indexed(IntegerIndexed {
                viewed_array_buffer: None,
                byte_offset: 0,
                array_length: 8,
            }),
            InternalObjectMethods::IntegerIndexedExotic,
            "TypedArray",
        ),
    ]
}

#[test]
fn table_binding_matches_documented_assignment() {
    for (data, expected_table, label) in all_kinds() {
        assert_eq!(*data.internal_methods(), expected_table, "table for {label}");
        assert_eq!(data.kind().label(), label);
    }
}

#[test]
fn constructibility_dependent_tables_both_values() {
    assert_eq!(
        *ObjectData::function(sample_function(true)).internal_methods(),
        InternalObjectMethods::Constructor
    );
    assert_eq!(
        *ObjectData::function(sample_function(false)).internal_methods(),
        InternalObjectMethods::Function
    );
    let bound = || BoundFunction {
        target_function: JsObject { index: 1 },
        this: JsValue::Undefined,
        args: vec![],
    };
    assert_eq!(
        *ObjectData::bound_function(bound(), true).internal_methods(),
        InternalObjectMethods::BoundConstructorExotic
    );
    assert_eq!(
        *ObjectData::bound_function(bound(), false).internal_methods(),
        InternalObjectMethods::BoundFunctionExotic
    );
}

#[test]
fn mapped_and_unmapped_arguments_tables_differ() {
    assert_eq!(
        *ObjectData::arguments(Arguments::Unmapped).internal_methods(),
        InternalObjectMethods::Ordinary
    );
    assert_eq!(
        *ObjectData::arguments(Arguments::Mapped(MappedArguments {
            parameter_map: JsObject { index: 2 },
        }))
        .internal_methods(),
        InternalObjectMethods::ArgumentsExotic
    );
}

/// The predicate vector of an object, in a fixed kind order.
fn predicate_vector(o: &Object) -> Vec<bool> {
    vec![
        o.is_array(),
        o.is_array_iterator(),
        o.is_array_buffer(),
        o.is_map(),
        o.is_map_iterator(),
        o.is_regexp(),
        o.is_bigint(),
        o.is_boolean(),
        o.is_function(),
        o.is_set(),
        o.is_string(),
        o.is_number(),
        o.is_symbol(),
        o.is_error(),
        o.is_ordinary(),
        o.is_date(),
        o.is_arguments(),
        o.is_native_object(),
        o.is_typed_array(),
    ]
}

#[test]
fn predicates_are_exclusive_across_kinds() {
    // In the same order as predicate_vector: each predicate is satisfied
    // by exactly the kind carrying its label, and kinds without a
    // predicate of their own satisfy none.
    let expected = |label: &str| -> Vec<bool> {
        vec![
            label == "Array",
            label == "ArrayIterator",
            label == "ArrayBuffer",
            label == "Map",
            label == "MapIterator",
            label == "RegExp",
            label == "BigInt",
            label == "Boolean",
            label == "Function",
            label == "Set",
            label == "String",
            label == "Number",
            label == "Symbol",
            label == "Error",
            label == "Ordinary",
            label == "Date",
            label == "Arguments",
            label == "NativeObject",
            label == "TypedArray",
        ]
    };
    for (data, _, label) in all_kinds() {
        let o = Object::from_proto_and_data(None, data);
        assert_eq!(predicate_vector(&o), expected(label), "predicates for {label}");
    }
}

#[test]
fn accessors_empty_on_kind_mismatch() {
    let array = Object::from_proto_and_data(None, ObjectData::array());
    assert_eq!(array.as_array(), Some(()));
    assert!(array.as_array_iterator().is_none());
    assert!(array.as_map_ref().is_none());
    assert!(array.as_function().is_none());
    assert!(array.as_string().is_none());
    assert!(array.as_native_object().is_none());
    assert_eq!(array.kind().label(), "Array");

    let boxed_string = Object::from_proto_and_data(None, ObjectData::string("s".to_string()));
    assert_eq!(boxed_string.as_string(), Some("s".to_string()));
    assert!(boxed_string.as_array().is_none());

    let boolean = Object::from_proto_and_data(None, ObjectData::boolean(true));
    assert_eq!(boolean.as_boolean(), Some(true));
    assert!(boolean.as_number().is_none());

    let number = Object::from_proto_and_data(None, ObjectData::number(7));
    assert_eq!(number.as_number(), Some(7));

    let symbol = Object::from_proto_and_data(
        None,
        ObjectData::symbol(JsSymbol { hash: 5, description: None }),
    );
    assert_eq!(symbol.as_symbol(), Some(JsSymbol { hash: 5, description: None }));

    let func = Object::from_proto_and_data(None, ObjectData::function(sample_function(true)));
    assert_eq!(func.as_function(), Some(&sample_function(true)));
    assert!(func.as_bound_function().is_none());
}

#[test]
fn mapped_arguments_accessor() {
    let mapped = Object::from_proto_and_data(
        None,
        ObjectData::arguments(Arguments::Mapped(MappedArguments {
            parameter_map: JsObject { index: 4 },
        })),
    );
    assert!(mapped.is_arguments());
    assert_eq!(
        mapped.as_mapped_arguments(),
        Some(&MappedArguments { parameter_map: JsObject { index: 4 } })
    );
    let unmapped = Object::from_proto_and_data(None, ObjectData::arguments(Arguments::Unmapped));
    assert!(unmapped.is_arguments());
    assert!(unmapped.as_mapped_arguments().is_none());
}

#[test]
fn set_prototype_extensible_always_succeeds() {
    let mut o = Object::from_proto_and_data(None, ObjectData::ordinary());
    let p = JsObject { index: 12 };
    assert!(o.set_prototype(Some(p)));
    assert_eq!(*o.prototype(), Some(p));
    assert!(o.set_prototype(None));
    assert_eq!(*o.prototype(), None);
}

#[test]
fn set_prototype_non_extensible_rejects_different() {
    let p = JsObject { index: 1 };
    let q = JsObject { index: 2 };
    let mut o = Object::from_proto_and_data(Some(p), ObjectData::ordinary());
    o.prevent_extensions();
    assert!(!o.set_prototype(Some(q)));
    assert_eq!(*o.prototype(), Some(p));
    assert!(!o.set_prototype(None));
    assert_eq!(*o.prototype(), Some(p));
}

#[test]
fn set_prototype_non_extensible_accepts_identical() {
    let p = JsObject { index: 1 };
    let mut o = Object::from_proto_and_data(Some(p), ObjectData::ordinary());
    o.prevent_extensions();
    assert!(o.set_prototype(Some(p)));
    assert_eq!(*o.prototype(), Some(p));

    let mut none_proto = Object::from_proto_and_data(None, ObjectData::ordinary());
    none_proto.prevent_extensions();
    assert!(none_proto.set_prototype(None));
    assert_eq!(*none_proto.prototype(), None);
}

#[test]
fn host_object_round_trip() {
    // A host value of some embedder type registered under tag 7, with
    // state {x: 5}.
    let payload = HostObject { type_tag: 7, data: vec![5], children: vec![] };
    let o = Object::from_proto_and_data(None, ObjectData::native_object(payload));
    assert!(o.is_native_object());
    assert!(o.is(7));
    assert!(!o.is(8));
    let back = o.downcast_ref(7).expect("matching tag must downcast");
    assert_eq!(back.data, vec![5]);
    assert!(o.downcast_ref(8).is_none());

    // A non-host object never downcasts.
    let plain = Object::from_proto_and_data(None, ObjectData::ordinary());
    assert!(!plain.is(7));
    assert!(plain.downcast_ref(7).is_none());
}

#[test]
fn host_object_capabilities() {
    let payload = HostObject {
        type_tag: 9,
        data: vec![1, 2, 3],
        children: vec![JsObject { index: 4 }, JsObject { index: 6 }],
    };
    assert_eq!(NativeObject::type_tag(&payload), 9);
    assert_eq!(payload.trace(), vec![JsObject { index: 4 }, JsObject { index: 6 }]);
    let erased = payload.erase();
    assert_eq!(erased, payload);
}

#[test]
fn insert_property_returns_previous_descriptor() {
    let mut o = Object::from_proto_and_data(None, ObjectData::ordinary());
    let d1 = PropertyDescriptor::new().value(JsValue::Integer(1)).writable(true);
    let d2 = PropertyDescriptor::new().value(JsValue::Integer(2)).writable(false);
    let first = o.insert_property(PropertyKey::String("k".to_string()), d1);
    assert_eq!(first, None);
    let second = o.insert_property(PropertyKey::String("k".to_string()), d2);
    assert_eq!(
        second,
        Some(PropertyDescriptor::new().value(JsValue::Integer(1)).writable(true))
    );
    let stored = o.properties().get(&PropertyKey::String("k".to_string()));
    assert_eq!(
        stored,
        Some(&PropertyDescriptor::new().value(JsValue::Integer(2)).writable(false))
    );
    let removed = o.remove(&PropertyKey::String("k".to_string()));
    assert_eq!(
        removed,
        Some(PropertyDescriptor::new().value(JsValue::Integer(2)).writable(false))
    );
    assert!(o.properties().get(&PropertyKey::String("k".to_string())).is_none());
}

#[test]
fn labels_are_stable_and_distinct() {
    let labels: Vec<&'static str> = all_kinds().iter().map(|(d, _, _)| d.kind().label()).collect();
    assert_eq!(labels.len(), 25);
    for (i, a) in labels.iter().enumerate() {
        for b in labels.iter().skip(i + 1) {
            assert_ne!(a, b, "two kinds share the label {a}");
        }
    }
}

#[test]
fn tables_report_call_and_construct() {
    assert!(!InternalObjectMethods::Ordinary.has_call());
    assert!(!InternalObjectMethods::ArrayExotic.has_construct());
    assert!(InternalObjectMethods::Function.has_call());
    assert!(!InternalObjectMethods::Function.has_construct());
    assert!(InternalObjectMethods::Constructor.has_call());
    assert!(InternalObjectMethods::Constructor.has_construct());
    assert!(InternalObjectMethods::BoundFunctionExotic.has_call());
    assert!(!InternalObjectMethods::BoundFunctionExotic.has_construct());
    assert!(InternalObjectMethods::BoundConstructorExotic.has_construct());
}

#[test]
fn captures_downcast_by_tag() {
    let captures = Captures::new(3, vec![10, 20], vec![]);
    assert_eq!(captures.downcast_ref(3), Some(&vec![10, 20]));
    assert_eq!(captures.downcast_ref(4), None);
}

#[test]
fn trace_enumerates_prototype_payload_and_properties() {
    let proto = JsObject { index: 3 };
    let target = JsObject { index: 8 };
    let this_obj = JsObject { index: 9 };
    let arg_obj = JsObject { index: 10 };
    let mut o = Object::from_proto_and_data(
        Some(proto),
        ObjectData::bound_function(
            BoundFunction {
                target_function: target,
                this: JsValue::Object(this_obj),
                args: vec![JsValue::Integer(1), JsValue::Object(arg_obj)],
            },
            false,
        ),
    );
    let value_obj = JsObject { index: 11 };
    let getter = JsObject { index: 12 };
    o.insert_property(
        PropertyKey::String("x".to_string()),
        PropertyDescriptor::new().value(JsValue::Object(value_obj)),
    );
    o.insert_property(
        PropertyKey::String("y".to_string()),
        PropertyDescriptor::new().maybe_get(Some(getter)).value(JsValue::Integer(0)),
    );
    assert_eq!(
        o.trace_references(),
        vec![proto, target, this_obj, arg_obj, value_obj, getter]
    );
}

#[test]
fn trace_covers_host_children_and_map_entries() {
    let child = JsObject { index: 21 };
    let host = Object::from_proto_and_data(
        None,
        ObjectData::native_object(HostObject { type_tag: 1, data: vec![], children: vec![child] }),
    );
    assert_eq!(host.trace_references(), vec![child]);

    let k = JsObject { index: 30 };
    let v = JsObject { index: 31 };
    let map = Object::from_proto_and_data(
        None,
        ObjectData::map(OrderedMap {
            entries: vec![
                (JsValue::Object(k), JsValue::Object(v)),
                (JsValue::Integer(0), JsValue::Null),
            ],
        }),
    );
    assert_eq!(map.trace_references(), vec![k, v]);

    let plain = Object::from_proto_and_data(None, ObjectData::ordinary());
    assert_eq!(plain.trace_references(), Vec::<JsObject>::new());
}

#[test]
fn property_map_remove_returns_descriptor() {
    let mut map = boa_object::property::PropertyMap::new();
    let d = |n: i64| PropertyDescriptor::new().value(JsValue::Integer(n));
    assert_eq!(map.insert(PropertyKey::Index(4), d(4)), None);
    assert_eq!(map.insert(PropertyKey::String("s".to_string()), d(5)), None);
    assert_eq!(map.len(), 2);
    assert_eq!(map.remove(&PropertyKey::Index(4)), Some(d(4)));
    assert_eq!(map.remove(&PropertyKey::Index(4)), None);
    assert_eq!(map.len(), 1);
    assert!(map.get(&PropertyKey::Index(4)).is_none());
    assert_eq!(map.get(&PropertyKey::String("s".to_string())), Some(&d(5)));
}

#[test]
fn mutable_accessors_respect_kind() {
    let mut map_object = Object::from_proto_and_data(
        None,
        ObjectData::map(OrderedMap { entries: vec![] }),
    );
    assert!(map_object.as_set_mut().is_none());
    map_object
        .as_map_mut()
        .expect("a map object must hand out its entries")
        .entries
        .push((JsValue::Integer(1), JsValue::Integer(2)));
    assert_eq!(
        map_object.as_map_ref().unwrap().entries,
        vec![(JsValue::Integer(1), JsValue::Integer(2))]
    );
    // The kind and the bound table are unchanged by the mutation.
    assert!(map_object.is_map());
    assert_eq!(
        *map_object.object_data().internal_methods(),
        InternalObjectMethods::Ordinary
    );
}

#[test]
fn downcast_mut_matches_tag_exactly() {
    let mut host = Object::from_proto_and_data(
        None,
        ObjectData::native_object(HostObject { type_tag: 7, data: vec![5], children: vec![] }),
    );
    assert!(host.downcast_mut(8).is_none());
    host.downcast_mut(7).expect("a matching tag must downcast").data[0] = 6;
    assert_eq!(host.downcast_ref(7).unwrap().data, vec![6]);
}

#[test]
fn default_object_is_ordinary_and_extensible() {
    let o = Object::default();
    assert!(o.is_ordinary());
    assert!(o.is_extensible());
    assert_eq!(*o.prototype(), None);
    assert_eq!(o.properties().len(), 0);
}
