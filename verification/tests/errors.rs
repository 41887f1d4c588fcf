use objective::class::array::Array;
use objective::class::id::IdSource;
use objective::class::object::{Builder, Object};
use objective::class::value::{TypeTag, Value, ValueClass};
use objective::class::{Accessor, Class};
use objective::error::Error;
use objective::instance::Instance;
use std::sync::Arc;

fn sample_object(ids: &mut IdSource) -> Arc<Class> {
    let u64_class: Arc<Class> = Arc::new(Class::Value(ValueClass::new(TypeTag::U64, ids)));
    let i32_class: Arc<Class> = Arc::new(Class::Value(ValueClass::new(TypeTag::I32, ids)));
    let mut builder = Builder::new("Foo".into());
    builder.add("a".into(), u64_class);
    builder.add("b".into(), i32_class);
    Arc::new(Class::Object(Object::new(builder, ids)))
}

#[test]
fn object_item_is_type_error() {
    let mut ids = IdSource::new();
    let class = sample_object(&mut ids);
    assert!(matches!(class.item(0), Err(Error::TypeError)));

    let instance = Instance::new(class);
    let read = instance.read().unwrap();
    assert!(matches!(read.item(0), Err(Error::TypeError)));
    read.release();
}

#[test]
fn array_attr_is_type_error() {
    let mut ids = IdSource::new();
    let element: Arc<Class> = Arc::new(Class::Value(ValueClass::new(TypeTag::I32, &mut ids)));
    let class: Arc<Class> = Arc::new(Class::Array(Array::new(element, 4, &mut ids)));
    assert!(matches!(class.attr("x"), Err(Error::TypeError)));

    let instance = Instance::new(class);
    let read = instance.read().unwrap();
    assert!(matches!(read.attr("x"), Err(Error::TypeError)));
    read.release();
}

#[test]
fn array_item_out_of_bounds_is_index_error() {
    let mut ids = IdSource::new();
    let element: Arc<Class> = Arc::new(Class::Value(ValueClass::new(TypeTag::I32, &mut ids)));
    let class: Arc<Class> = Arc::new(Class::Array(Array::new(element, 4, &mut ids)));
    assert!(matches!(class.item(4), Err(Error::IndexError)));
    assert!(class.item(3).is_ok());

    let instance = Instance::new(class);
    let read = instance.read().unwrap();
    assert!(matches!(read.item(4), Err(Error::IndexError)));
    read.release();
}

#[test]
fn object_missing_attr_is_attribute_error() {
    let mut ids = IdSource::new();
    let class = sample_object(&mut ids);
    assert!(matches!(class.attr("nonexistent"), Err(Error::AttributeError)));

    let instance = Instance::new(class);
    let read = instance.read().unwrap();
    assert!(matches!(read.attr("nonexistent"), Err(Error::AttributeError)));
    read.release();
}

#[test]
fn leaf_navigation_is_type_error() {
    let mut ids = IdSource::new();
    let class: Arc<Class> = Arc::new(Class::Value(ValueClass::new(TypeTag::U64, &mut ids)));
    assert!(matches!(class.attr("x"), Err(Error::TypeError)));
    assert!(matches!(class.item(0), Err(Error::TypeError)));

    let instance = Instance::new(class);
    let read = instance.read().unwrap();
    assert!(matches!(read.attr("x"), Err(Error::TypeError)));
    assert!(matches!(read.item(0), Err(Error::TypeError)));
    read.release();
}

#[test]
fn cast_with_wrong_tag_is_value_error() {
    let mut ids = IdSource::new();
    let class: Arc<Class> = Arc::new(Class::Value(ValueClass::new(TypeTag::U64, &mut ids)));
    let instance = Instance::new(class);

    let read = instance.read().unwrap();
    assert!(matches!(read.cast(TypeTag::I32), Err(Error::ValueError)));
    read.release();

    let mut write = instance.write().unwrap();
    assert!(matches!(write.put(Value::I32(1)), Err(Error::ValueError)));
    assert!(matches!(write.cast(TypeTag::Bool), Err(Error::ValueError)));
    write.release();

    let read = instance.read().unwrap();
    assert_eq!(read.cast(TypeTag::U64).unwrap(), Value::U64(0));
    read.release();
}

#[test]
fn cast_through_aggregate_is_type_error() {
    let mut ids = IdSource::new();
    let class = sample_object(&mut ids);
    let instance = Instance::new(class.clone());

    let read = instance.read().unwrap();
    assert!(matches!(read.cast(TypeTag::U64), Err(Error::TypeError)));
    read.release();

    let mut write = instance.write().unwrap();
    assert!(matches!(write.put(Value::U64(1)), Err(Error::TypeError)));
    write.release();

    let element: Arc<Class> = Arc::new(Class::Value(ValueClass::new(TypeTag::I32, &mut ids)));
    let array_class: Arc<Class> = Arc::new(Class::Array(Array::new(element, 2, &mut ids)));
    let array = Instance::new(array_class);
    let read = array.read().unwrap();
    assert!(matches!(read.cast(TypeTag::I32), Err(Error::TypeError)));
    read.release();
}

#[test]
fn error_kinds_name_themselves() {
    assert_eq!(Error::AccessError.message(), "AccessError");
    assert_eq!(Error::TypeError.message(), "TypeError");
    assert_eq!(Error::AttributeError.message(), "AttributeError");
    assert_eq!(Error::IndexError.message(), "IndexError");
    assert_eq!(Error::ValueError.message(), "ValueError");
}

#[test]
fn identities_are_never_reused() {
    let mut ids = IdSource::new();
    let first: Arc<Class> = Arc::new(Class::Value(ValueClass::new(TypeTag::I32, &mut ids)));
    let second: Arc<Class> = Arc::new(Class::Value(ValueClass::new(TypeTag::I32, &mut ids)));
    assert_ne!(first.id(), second.id());

    let mut twin_builder = Builder::new("Twin".into());
    twin_builder.add("c".into(), first.clone());
    let twin_one = Object::new(twin_builder, &mut ids);

    let mut twin_builder = Builder::new("Twin".into());
    twin_builder.add("c".into(), first.clone());
    let twin_two = Object::new(twin_builder, &mut ids);
    assert_ne!(twin_one.id(), twin_two.id());

    let shared = first.clone();
    assert_eq!(first.id(), shared.id());
}

#[test]
fn lens_with_foreign_origin_is_type_error() {
    let mut ids = IdSource::new();
    let i32_class: Arc<Class> = Arc::new(Class::Value(ValueClass::new(TypeTag::I32, &mut ids)));

    let mut first_builder = Builder::new("Twin".into());
    first_builder.add("c".into(), i32_class.clone());
    let first: Arc<Class> = Arc::new(Class::Object(Object::new(first_builder, &mut ids)));

    let mut second_builder = Builder::new("Twin".into());
    second_builder.add("c".into(), i32_class);
    let second: Arc<Class> = Arc::new(Class::Object(Object::new(second_builder, &mut ids)));

    let lens = first.attr("c").unwrap();

    let same = Instance::new(first.clone());
    let read = same.read().unwrap();
    assert!(read.through(&lens).is_ok());
    read.release();

    let other = Instance::new(second);
    let read = other.read().unwrap();
    assert!(matches!(read.through(&lens), Err(Error::TypeError)));
    read.release();

    let mut write = other.write().unwrap();
    assert!(matches!(write.through(&lens), Err(Error::TypeError)));
    write.release();
}
