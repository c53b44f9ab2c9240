use boa_object::builder::{ConstructorBuilder, FunctionBinding, FunctionBuilder, ObjectInitializer};
use boa_object::context::Context;
use boa_object::data::InternalObjectMethods;
use boa_object::payload::Function;
use boa_object::property::{Attribute, PropertyDescriptor, PropertyKey};
use boa_object::value::{JsValue, NativeFunction};

#[test]
fn context_starts_with_bootstrap_prototypes() {
    let ctx = Context::new();
    assert_eq!(ctx.len(), 2);
    let object_proto = ctx.object_prototype();
    let function_proto = ctx.function_prototype();
    assert!(ctx.get(object_proto).is_ordinary());
    assert!(ctx.get(function_proto).is_ordinary());
    assert_ne!(object_proto, function_proto);
}

#[test]
fn construct_object_hangs_off_object_prototype() {
    let mut ctx = Context::new();
    let o = ctx.construct_object();
    assert!(ctx.get(o).is_ordinary());
    assert_eq!(*ctx.get(o).prototype(), Some(ctx.object_prototype()));
    assert!(ctx.get(o).is_extensible());
}

#[test]
fn function_builder_fills_name_and_length() {
    let mut ctx = Context::new();
    let handle = FunctionBuilder::native(NativeFunction { registry_slot: 11 })
        .name("concat".to_string())
        .length(2)
        .build(&mut ctx);
    let record = ctx.get(handle);
    assert!(record.is_function());
    assert_eq!(
        record.as_function(),
        Some(&Function::Native { function: NativeFunction { registry_slot: 11 }, constructor: false })
    );
    assert_eq!(*record.object_data().internal_methods(), InternalObjectMethods::Function);
    assert_eq!(*record.prototype(), Some(ctx.function_prototype()));
    let name = record.properties().get(&PropertyKey::String("name".to_string())).unwrap();
    assert_eq!(name.value, Some(JsValue::String("concat".to_string())));
    assert_eq!(name.writable, Some(false));
    assert_eq!(name.enumerable, Some(false));
    assert_eq!(name.configurable, Some(true));
    let length = record.properties().get(&PropertyKey::String("length".to_string())).unwrap();
    assert_eq!(length.value, Some(JsValue::Integer(2)));
}

#[test]
fn function_builder_constructor_flag_picks_table() {
    let mut ctx = Context::new();
    let handle = FunctionBuilder::native(NativeFunction { registry_slot: 1 })
        .constructor(true)
        .build(&mut ctx);
    assert_eq!(
        *ctx.get(handle).object_data().internal_methods(),
        InternalObjectMethods::Constructor
    );
}

#[test]
fn closure_builder_keeps_captures() {
    let mut ctx = Context::new();
    let captures = boa_object::payload::Captures::new(6, vec![41], vec![]);
    let handle = FunctionBuilder::closure_with_captures(
        NativeFunction { registry_slot: 2 },
        captures,
    )
    .build(&mut ctx);
    let record = ctx.get(handle);
    match record.as_function() {
        Some(Function::Closure { captures, constructor, .. }) => {
            assert!(!constructor);
            assert_eq!(captures.downcast_ref(6), Some(&vec![41]));
            assert_eq!(captures.downcast_ref(7), None);
        }
        other => panic!("expected a closure payload, got {other:?}"),
    }
}

#[test]
fn plain_closure_builder_has_empty_captures() {
    let mut ctx = Context::new();
    let handle = FunctionBuilder::closure(NativeFunction { registry_slot: 3 }).build(&mut ctx);
    match ctx.get(handle).as_function() {
        Some(Function::Closure { captures, .. }) => {
            assert_eq!(captures.type_tag, 0);
            assert!(captures.data.is_empty());
        }
        other => panic!("expected a closure payload, got {other:?}"),
    }
}

#[test]
fn binding_key_may_differ_from_function_name() {
    let mut ctx = Context::new();
    let mut initializer = ObjectInitializer::new(&ctx);
    initializer.function(
        &mut ctx,
        NativeFunction { registry_slot: 40 },
        FunctionBinding::with_binding(
            PropertyKey::Index(0),
            "indexed".to_string(),
        ),
        0,
    );
    let handle = initializer.build(&mut ctx);
    let slot = ctx.get(handle).properties().get(&PropertyKey::Index(0)).unwrap();
    match slot.value {
        Some(JsValue::Object(f)) => {
            let name = ctx.get(f).properties().get(&PropertyKey::String("name".to_string()));
            assert_eq!(name.unwrap().value, Some(JsValue::String("indexed".to_string())));
        }
        ref other => panic!("expected an object-valued property, got {other:?}"),
    }
}

#[test]
fn object_initializer_builds_object_with_properties() {
    let mut ctx = Context::new();
    let mut initializer = ObjectInitializer::new(&ctx);
    initializer.property(
        PropertyKey::String("hello".to_string()),
        JsValue::String("world".to_string()),
        Attribute::all(),
    );
    initializer.property(PropertyKey::Index(1), JsValue::Integer(1), Attribute::all());
    initializer.function(
        &mut ctx,
        NativeFunction { registry_slot: 30 },
        FunctionBinding::from_name("func".to_string()),
        0,
    );
    let handle = initializer.build(&mut ctx);
    let record = ctx.get(handle);
    assert!(record.is_ordinary());
    assert_eq!(*record.prototype(), Some(ctx.object_prototype()));
    let hello = record.properties().get(&PropertyKey::String("hello".to_string())).unwrap();
    assert_eq!(hello.value, Some(JsValue::String("world".to_string())));
    assert_eq!(hello.writable, Some(true));
    assert_eq!(hello.enumerable, Some(true));
    let func = record.properties().get(&PropertyKey::String("func".to_string())).unwrap();
    match func.value {
        Some(JsValue::Object(f)) => {
            assert!(ctx.get(f).is_function());
            let fname = ctx.get(f).properties().get(&PropertyKey::String("name".to_string()));
            assert_eq!(fname.unwrap().value, Some(JsValue::String("func".to_string())));
        }
        ref other => panic!("expected an object-valued property, got {other:?}"),
    }
    // Index keys come before string keys in the own-key order.
    let keys = record.properties().keys();
    assert_eq!(keys[0], PropertyKey::Index(1));
}

#[test]
fn constructor_builder_links_both_records() {
    let mut ctx = Context::new();
    let mut builder = ConstructorBuilder::new(NativeFunction { registry_slot: 77 });
    builder.name("Thing".to_string());
    builder.length(1);
    builder.method(
        &mut ctx,
        NativeFunction { registry_slot: 78 },
        FunctionBinding::from_name("run".to_string()),
        0,
    );
    builder.static_property(
        PropertyKey::String("MAX".to_string()),
        JsValue::Integer(16),
        Attribute { writable: false, enumerable: false, configurable: false },
    );
    let ctor = builder.build(&mut ctx);

    let ctor_record = ctx.get(ctor);
    assert!(ctor_record.is_function());
    assert_eq!(
        *ctor_record.object_data().internal_methods(),
        InternalObjectMethods::Constructor
    );
    assert_eq!(*ctor_record.prototype(), Some(ctx.function_prototype()));
    let name = ctor_record.properties().get(&PropertyKey::String("name".to_string())).unwrap();
    assert_eq!(name.value, Some(JsValue::String("Thing".to_string())));
    let length = ctor_record.properties().get(&PropertyKey::String("length".to_string())).unwrap();
    assert_eq!(length.value, Some(JsValue::Integer(1)));
    let max = ctor_record.properties().get(&PropertyKey::String("MAX".to_string())).unwrap();
    assert_eq!(max.value, Some(JsValue::Integer(16)));

    // The constructor's `prototype` property names the prototype record,
    // and that record's `constructor` property points back.
    let proto_prop = ctor_record
        .properties()
        .get(&PropertyKey::String("prototype".to_string()))
        .unwrap();
    let proto_handle = match proto_prop.value {
        Some(JsValue::Object(p)) => p,
        ref other => panic!("expected an object-valued prototype property, got {other:?}"),
    };
    assert_eq!(proto_prop.writable, Some(false));
    assert_eq!(proto_prop.configurable, Some(false));
    let proto_record = ctx.get(proto_handle);
    assert!(proto_record.is_ordinary());
    assert_eq!(*proto_record.prototype(), Some(ctx.object_prototype()));
    let back = proto_record
        .properties()
        .get(&PropertyKey::String("constructor".to_string()))
        .unwrap();
    assert_eq!(back.value, Some(JsValue::Object(ctor)));

    // The queued method landed on the prototype record.
    let run = proto_record.properties().get(&PropertyKey::String("run".to_string())).unwrap();
    match run.value {
        Some(JsValue::Object(f)) => assert!(ctx.get(f).is_function()),
        ref other => panic!("expected an object-valued method, got {other:?}"),
    }
}

#[test]
fn constructor_builder_non_constructor_table() {
    let mut ctx = Context::new();
    let mut builder = ConstructorBuilder::new(NativeFunction { registry_slot: 5 });
    builder.constructor(false);
    let ctor = builder.build(&mut ctx);
    assert_eq!(
        *ctx.get(ctor).object_data().internal_methods(),
        InternalObjectMethods::Function
    );
}

#[test]
fn accessor_descriptor_has_no_value() {
    let mut ctx = Context::new();
    let mut builder = ConstructorBuilder::new(NativeFunction { registry_slot: 5 });
    let getter = ctx.construct_object();
    builder.accessor(
        PropertyKey::String("size".to_string()),
        Some(getter),
        None,
        Attribute { writable: false, enumerable: false, configurable: true },
    );
    let ctor = builder.build(&mut ctx);
    let proto_handle = match ctx
        .get(ctor)
        .properties()
        .get(&PropertyKey::String("prototype".to_string()))
        .unwrap()
        .value
    {
        Some(JsValue::Object(p)) => p,
        ref other => panic!("expected an object-valued prototype property, got {other:?}"),
    };
    let proto_record = ctx.get(proto_handle);
    let size = proto_record.properties().get(&PropertyKey::String("size".to_string())).unwrap();
    assert_eq!(size.value, None);
    assert_eq!(size.getter, Some(getter));
    assert_eq!(size.setter, None);
    assert_eq!(size.enumerable, Some(false));
    assert_eq!(size.configurable, Some(true));
}

#[test]
fn property_map_keeps_own_key_order() {
    let mut ctx = Context::new();
    let mut initializer = ObjectInitializer::new(&ctx);
    initializer.property(
        PropertyKey::String("b".to_string()),
        JsValue::Integer(0),
        Attribute::all(),
    );
    initializer.property(PropertyKey::Index(9), JsValue::Integer(0), Attribute::all());
    initializer.property(PropertyKey::Index(2), JsValue::Integer(0), Attribute::all());
    initializer.property(
        PropertyKey::String("a".to_string()),
        JsValue::Integer(0),
        Attribute::all(),
    );
    let handle = initializer.build(&mut ctx);
    let keys = ctx.get(handle).properties().keys();
    assert_eq!(
        keys,
        vec![
            PropertyKey::Index(2),
            PropertyKey::Index(9),
            PropertyKey::String("b".to_string()),
            PropertyKey::String("a".to_string()),
        ]
    );
}
