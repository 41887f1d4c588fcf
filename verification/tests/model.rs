use objective::class::id::IdSource;
use objective::class::object::{Builder, Object};
use objective::class::value::{TypeTag, Value, ValueClass};
use objective::class::{Accessor, Class};
use objective::instance::Instance;
use std::sync::Arc;

#[test]
fn it_works() {
    let mut ids = IdSource::new();
    let class: Arc<Class> = Arc::new(Class::Value(ValueClass::new(TypeTag::U64, &mut ids)));
    let instance = Instance::new(class);

    let read = instance.read().unwrap();
    assert_eq!(read.cast(TypeTag::U64).unwrap(), Value::U64(0));
    read.release();

    let mut write = instance.write().unwrap();
    write.put(Value::U64(69)).unwrap();
    write.release();

    let read = instance.read().unwrap();
    assert_eq!(read.cast(TypeTag::U64).unwrap(), Value::U64(69));
    read.release();
}

#[test]
fn object_creation() {
    let mut ids = IdSource::new();
    let u64_class: Arc<Class> = Arc::new(Class::Value(ValueClass::new(TypeTag::U64, &mut ids)));
    let i32_class: Arc<Class> = Arc::new(Class::Value(ValueClass::new(TypeTag::I32, &mut ids)));

    let mut builder = Builder::new("Foo".into());
    builder.add("a".into(), u64_class.clone());
    builder.add("b".into(), i32_class.clone());
    builder.add("c".into(), i32_class.clone());
    assert_eq!(builder.size, 16);

    let foo_class: Arc<Class> = Arc::new(Class::Object(Object::new(builder, &mut ids)));
    let foo = Arc::new(Instance::new(foo_class.clone()));

    let read = foo.read().unwrap();
    let a = read.attr("a").unwrap();
    assert_eq!(a.cast(&read, TypeTag::U64).unwrap(), Value::U64(0));
    read.release();

    let mut write = foo.write().unwrap();
    let a = write.attr("a").unwrap();
    a.put(&mut write, Value::U64(69)).unwrap();
    write.release();

    let read = foo.read().unwrap();
    let a = read.attr("a").unwrap();
    assert_eq!(a.cast(&read, TypeTag::U64).unwrap(), Value::U64(69));
    read.release();

    {
        let mut write = foo.write().unwrap();
        let b = write.attr("b").unwrap();
        b.put(&mut write, Value::I32(-69)).unwrap();
        let c = write.attr("c").unwrap();
        c.put(&mut write, Value::I32(-420)).unwrap();
        write.release();
    }
    {
        let read = foo.read().unwrap();
        let a = read.attr("a").unwrap();
        let b = read.attr("b").unwrap();
        let c = read.attr("c").unwrap();
        assert_eq!(a.cast(&read, TypeTag::U64).unwrap(), Value::U64(69));
        assert_eq!(b.cast(&read, TypeTag::I32).unwrap(), Value::I32(-69));
        assert_eq!(c.cast(&read, TypeTag::I32).unwrap(), Value::I32(-420));
        read.release();
    }

    let c_lens = foo_class.attr("c").unwrap();
    let read = foo.read().unwrap();
    let through_c = read.through(&c_lens).unwrap();
    assert_eq!(through_c.cast(&read, TypeTag::I32).unwrap(), Value::I32(-420));
    read.release();

    let foo_array_class: Arc<Class> =
        Arc::new(Class::Array(objective::class::array::Array::new(foo_class.clone(), 3, &mut ids)));
    let foo_array = Arc::new(Instance::new(foo_array_class));

    let read = foo_array.read().unwrap();
    let first_a = read.item(0).unwrap().attr("a").unwrap();
    assert_eq!(first_a.cast(&read, TypeTag::U64).unwrap(), Value::U64(0));
    read.release();

    let mut write = foo_array.write().unwrap();
    let b2 = write.item(2).unwrap().attr("b").unwrap();
    b2.put(&mut write, Value::I32(300)).unwrap();
    write.release();

    let mut write = foo_array.write().unwrap();
    let b1 = write.item(1).unwrap().attr("b").unwrap();
    b1.put(&mut write, Value::I32(200)).unwrap();
    write.release();

    let mut write = foo_array.write().unwrap();
    let b0 = write.item(0).unwrap().attr("b").unwrap();
    b0.put(&mut write, Value::I32(100)).unwrap();
    write.release();

    let read = foo_array.read().unwrap();
    let b2 = read.item(2).unwrap().attr("b").unwrap();
    assert_eq!(b2.cast(&read, TypeTag::I32).unwrap(), Value::I32(300));
    read.release();
}

#[test]
fn array_items_do_not_interfere() {
    let mut ids = IdSource::new();
    let u64_class: Arc<Class> = Arc::new(Class::Value(ValueClass::new(TypeTag::U64, &mut ids)));
    let i32_class: Arc<Class> = Arc::new(Class::Value(ValueClass::new(TypeTag::I32, &mut ids)));

    let mut builder = Builder::new("Foo".into());
    builder.add("a".into(), u64_class.clone());
    builder.add("b".into(), i32_class.clone());
    builder.add("c".into(), i32_class.clone());
    let foo_class: Arc<Class> = Arc::new(Class::Object(Object::new(builder, &mut ids)));
    let array_class: Arc<Class> =
        Arc::new(Class::Array(objective::class::array::Array::new(foo_class, 3, &mut ids)));
    assert_eq!(array_class.size(), 48);

    let array = Instance::new(array_class);
    let mut write = array.write().unwrap();
    for i in 0..3usize {
        let b = write.item(i).unwrap().attr("b").unwrap();
        b.put(&mut write, Value::I32(100 * (i as i32 + 1))).unwrap();
    }
    write.release();

    let read = array.read().unwrap();
    for i in 0..3usize {
        let b = read.item(i).unwrap().attr("b").unwrap();
        assert_eq!(b.cast(&read, TypeTag::I32).unwrap(), Value::I32(100 * (i as i32 + 1)));
        let a = read.item(i).unwrap().attr("a").unwrap();
        assert_eq!(a.cast(&read, TypeTag::U64).unwrap(), Value::U64(0));
    }
    read.release();
}

#[test]
fn writes_leave_siblings_alone() {
    let mut ids = IdSource::new();
    let u64_class: Arc<Class> = Arc::new(Class::Value(ValueClass::new(TypeTag::U64, &mut ids)));
    let i32_class: Arc<Class> = Arc::new(Class::Value(ValueClass::new(TypeTag::I32, &mut ids)));

    let mut builder = Builder::new("Foo".into());
    builder.add("a".into(), u64_class);
    builder.add("b".into(), i32_class.clone());
    builder.add("c".into(), i32_class);
    let foo_class: Arc<Class> = Arc::new(Class::Object(Object::new(builder, &mut ids)));
    let foo = Instance::new(foo_class);

    let mut write = foo.write().unwrap();
    let b = write.attr("b").unwrap();
    b.put(&mut write, Value::I32(7)).unwrap();
    let c = write.attr("c").unwrap();
    c.put(&mut write, Value::I32(9)).unwrap();
    write.release();

    let mut write = foo.write().unwrap();
    let a = write.attr("a").unwrap();
    a.put(&mut write, Value::U64(u64::MAX)).unwrap();
    write.release();

    let read = foo.read().unwrap();
    let b = read.attr("b").unwrap();
    let c = read.attr("c").unwrap();
    assert_eq!(b.cast(&read, TypeTag::I32).unwrap(), Value::I32(7));
    assert_eq!(c.cast(&read, TypeTag::I32).unwrap(), Value::I32(9));
    read.release();
}

#[test]
fn inheritance_appends_members() {
    let mut ids = IdSource::new();
    let u64_class: Arc<Class> = Arc::new(Class::Value(ValueClass::new(TypeTag::U64, &mut ids)));
    let i32_class: Arc<Class> = Arc::new(Class::Value(ValueClass::new(TypeTag::I32, &mut ids)));

    let mut builder = Builder::new("Base".into());
    builder.add("a".into(), u64_class);
    builder.add("b".into(), i32_class.clone());
    let base = Arc::new(Object::new(builder, &mut ids));

    let mut derived_builder = Builder::new_inherit("Derived".into(), base.clone());
    derived_builder.add("c".into(), i32_class);
    assert_eq!(derived_builder.size, 16);
    let derived: Arc<Class> = Arc::new(Class::Object(Object::new(derived_builder, &mut ids)));

    let instance = Instance::new(derived.clone());
    let mut write = instance.write().unwrap();
    let a = write.attr("a").unwrap();
    a.put(&mut write, Value::U64(11)).unwrap();
    let c = write.attr("c").unwrap();
    c.put(&mut write, Value::I32(33)).unwrap();
    write.release();

    let read = instance.read().unwrap();
    let a = read.attr("a").unwrap();
    let b = read.attr("b").unwrap();
    let c = read.attr("c").unwrap();
    assert_eq!(a.cast(&read, TypeTag::U64).unwrap(), Value::U64(11));
    assert_eq!(b.cast(&read, TypeTag::I32).unwrap(), Value::I32(0));
    assert_eq!(c.cast(&read, TypeTag::I32).unwrap(), Value::I32(33));
    read.release();
}

#[test]
fn duplicate_name_last_wins() {
    let mut ids = IdSource::new();
    let u64_class: Arc<Class> = Arc::new(Class::Value(ValueClass::new(TypeTag::U64, &mut ids)));
    let i32_class: Arc<Class> = Arc::new(Class::Value(ValueClass::new(TypeTag::I32, &mut ids)));

    let mut builder = Builder::new("Shadow".into());
    builder.add("x".into(), u64_class);
    builder.add("x".into(), i32_class);
    let class: Arc<Class> = Arc::new(Class::Object(Object::new(builder, &mut ids)));
    let instance = Instance::new(class);

    let mut write = instance.write().unwrap();
    let x = write.attr("x").unwrap();
    x.put(&mut write, Value::I32(5)).unwrap();
    write.release();

    let read = instance.read().unwrap();
    let x = read.attr("x").unwrap();
    assert_eq!(x.cast(&read, TypeTag::I32).unwrap(), Value::I32(5));
    read.release();
}

#[test]
fn concurrent_read_guards_agree() {
    let mut ids = IdSource::new();
    let class: Arc<Class> = Arc::new(Class::Value(ValueClass::new(TypeTag::U32, &mut ids)));
    let instance = Instance::new(class);

    let mut write = instance.write().unwrap();
    write.put(Value::U32(1234)).unwrap();
    write.release();

    let first = instance.read().unwrap();
    let second = instance.read().unwrap();
    first.readers_agree(&second);
    assert_eq!(first.cast(TypeTag::U32).unwrap(), Value::U32(1234));
    assert_eq!(second.cast(TypeTag::U32).unwrap(), Value::U32(1234));
    first.release();
    second.release();
}
