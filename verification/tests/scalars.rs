use objective::class::array::Array;
use objective::class::id::IdSource;
use objective::class::object::{align, Builder, Object};
use objective::class::value::{TypeTag, Value, ValueClass};
use objective::class::{Accessor, Class};
use objective::instance::Instance;
use std::sync::Arc;

fn all_tags() -> [TypeTag; 9] {
    [
        TypeTag::Bool,
        TypeTag::U8,
        TypeTag::U16,
        TypeTag::U32,
        TypeTag::U64,
        TypeTag::I8,
        TypeTag::I16,
        TypeTag::I32,
        TypeTag::I64,
    ]
}

fn default_of(tag: TypeTag) -> Value {
    match tag {
        TypeTag::Bool => Value::Bool(false),
        TypeTag::U8 => Value::U8(0),
        TypeTag::U16 => Value::U16(0),
        TypeTag::U32 => Value::U32(0),
        TypeTag::U64 => Value::U64(0),
        TypeTag::I8 => Value::I8(0),
        TypeTag::I16 => Value::I16(0),
        TypeTag::I32 => Value::I32(0),
        TypeTag::I64 => Value::I64(0),
    }
}

#[test]
fn fresh_instance_reads_default_for_every_tag() {
    let mut ids = IdSource::new();
    for tag in all_tags() {
        let class: Arc<Class> = Arc::new(Class::Value(ValueClass::new(tag, &mut ids)));
        let instance = Instance::new(class);
        let read = instance.read().unwrap();
        assert_eq!(read.cast(tag).unwrap(), default_of(tag));
        read.release();
    }
}

#[test]
fn write_then_read_round_trips_for_every_tag() {
    let samples = [
        Value::Bool(true),
        Value::U8(0xAB),
        Value::U16(0xBEEF),
        Value::U32(0xDEAD_BEEF),
        Value::U64(0x0123_4567_89AB_CDEF),
        Value::U64(u64::MAX),
        Value::I8(-1),
        Value::I8(i8::MIN),
        Value::I16(i16::MIN),
        Value::I16(-2),
        Value::I32(i32::MIN),
        Value::I32(i32::MAX),
        Value::I64(i64::MIN),
        Value::I64(i64::MAX),
        Value::I64(-424242),
    ];
    let mut ids = IdSource::new();
    for sample in samples {
        let tag = match sample {
            Value::Bool(_) => TypeTag::Bool,
            Value::U8(_) => TypeTag::U8,
            Value::U16(_) => TypeTag::U16,
            Value::U32(_) => TypeTag::U32,
            Value::U64(_) => TypeTag::U64,
            Value::I8(_) => TypeTag::I8,
            Value::I16(_) => TypeTag::I16,
            Value::I32(_) => TypeTag::I32,
            Value::I64(_) => TypeTag::I64,
        };
        let class: Arc<Class> = Arc::new(Class::Value(ValueClass::new(tag, &mut ids)));
        let instance = Instance::new(class);
        let mut write = instance.write().unwrap();
        write.put(sample).unwrap();
        write.release();
        let read = instance.read().unwrap();
        assert_eq!(read.cast(tag).unwrap(), sample);
        read.release();
    }
}

#[test]
fn scalar_layouts_are_their_widths() {
    let mut ids = IdSource::new();
    let widths = [
        (TypeTag::Bool, 1),
        (TypeTag::U8, 1),
        (TypeTag::U16, 2),
        (TypeTag::U32, 4),
        (TypeTag::U64, 8),
        (TypeTag::I8, 1),
        (TypeTag::I16, 2),
        (TypeTag::I32, 4),
        (TypeTag::I64, 8),
    ];
    for (tag, width) in widths {
        let class = Class::Value(ValueClass::new(tag, &mut ids));
        assert_eq!(class.size(), width);
        assert_eq!(class.align(), width);
        assert_eq!(class.layout(), (width, width));
    }
}

#[test]
fn alignment_rounding_is_exact() {
    assert_eq!(align(0, 8), 0);
    assert_eq!(align(1, 8), 8);
    assert_eq!(align(8, 4), 8);
    assert_eq!(align(9, 4), 12);
    assert_eq!(align(12, 4), 12);
    assert_eq!(align(13, 1), 13);
    assert_eq!(align(5, 0), 5);
}

#[test]
fn object_layout_pads_between_members() {
    let mut ids = IdSource::new();
    let u8_class: Arc<Class> = Arc::new(Class::Value(ValueClass::new(TypeTag::U8, &mut ids)));
    let u64_class: Arc<Class> = Arc::new(Class::Value(ValueClass::new(TypeTag::U64, &mut ids)));

    let mut builder = Builder::new("Padded".into());
    builder.add("flag".into(), u8_class);
    assert_eq!(builder.size, 1);
    builder.add("word".into(), u64_class);
    assert_eq!(builder.size, 16);

    let class = Class::Object(Object::new(builder, &mut ids));
    assert_eq!(class.size(), 16);
    assert_eq!(class.align(), 8);
}

#[test]
fn empty_object_has_size_zero_and_align_one() {
    let mut ids = IdSource::new();
    let builder = Builder::new("Empty".into());
    assert_eq!(builder.size, 0);
    let class: Arc<Class> = Arc::new(Class::Object(Object::new(builder, &mut ids)));
    assert_eq!(class.size(), 0);
    assert_eq!(class.align(), 1);

    let instance = Instance::new(class);
    let read = instance.read().unwrap();
    assert!(matches!(
        read.attr("anything"),
        Err(objective::error::Error::AttributeError)
    ));
    read.release();
}

#[test]
fn array_size_is_element_size_times_length() {
    let mut ids = IdSource::new();
    let element: Arc<Class> = Arc::new(Class::Value(ValueClass::new(TypeTag::U16, &mut ids)));
    let class: Arc<Class> = Arc::new(Class::Array(Array::new(element, 7, &mut ids)));
    assert_eq!(class.size(), 14);
    assert_eq!(class.align(), 2);

    assert!(class.item(3).is_ok());
    assert!(class.item(0).is_ok());
    assert!(class.item(6).is_ok());
    assert!(class.item(7).is_err());
}

#[test]
fn lens_navigates_nested_classes() {
    let mut ids = IdSource::new();
    let i32_class: Arc<Class> = Arc::new(Class::Value(ValueClass::new(TypeTag::I32, &mut ids)));
    let mut inner_builder = Builder::new("Inner".into());
    inner_builder.add("x".into(), i32_class.clone());
    inner_builder.add("y".into(), i32_class);
    let inner: Arc<Class> = Arc::new(Class::Object(Object::new(inner_builder, &mut ids)));

    let array: Arc<Class> = Arc::new(Class::Array(Array::new(inner, 2, &mut ids)));
    let mut outer_builder = Builder::new("Outer".into());
    outer_builder.add("pair".into(), array);
    let outer: Arc<Class> = Arc::new(Class::Object(Object::new(outer_builder, &mut ids)));

    let lens = outer
        .attr("pair")
        .unwrap()
        .item(1)
        .unwrap()
        .attr("y")
        .unwrap();

    let instance = Instance::new(outer);
    let mut write = instance.write().unwrap();
    let target = write.through(&lens).unwrap();
    target.put(&mut write, Value::I32(77)).unwrap();
    write.release();

    let read = instance.read().unwrap();
    let target = read.through(&lens).unwrap();
    assert_eq!(target.cast(&read, TypeTag::I32).unwrap(), Value::I32(77));
    let other = read
        .attr("pair")
        .unwrap()
        .item(0)
        .unwrap()
        .attr("y")
        .unwrap();
    assert_eq!(other.cast(&read, TypeTag::I32).unwrap(), Value::I32(0));
    read.release();
}
