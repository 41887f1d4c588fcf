use crate::class::lens::Lens;
use crate::class::value::{decode, encode, width, read_value, write_value, TypeTag, Value};
use crate::class::{arc_clone, Class};
use crate::error::Error;
use crate::instance::{Instance, InstancePred};
use std::sync::Arc;
use vstd::prelude::*;
use vstd::rwlock::WriteHandle;

verus! {

/// A scoped exclusive-lock acquisition over one instance: while it
/// lives, the guard owns the instance's bytes, which may be read and
/// written through references; releasing it stores them back.
pub struct InstanceWriteGuard<'g> {
    class: Arc<Class>,
    data: Vec<u8>,
    handle: WriteHandle<'g, Vec<u8>, InstancePred>,
}

/// A guard-scoped cursor for writing: a sub-class of the guard's class
/// together with the cumulative byte offset where it lives.
pub struct WriteReference {
    class: Arc<Class>,
    offset: usize,
}

impl<'g> InstanceWriteGuard<'g> {
    /// The class of the guarded instance.
    pub closed spec fn spec_class(&self) -> Class {
        *self.class
    }

    /// The bytes the guard currently holds.
    pub closed spec fn bytes(&self) -> Seq<u8> {
        self.data@
    }

    /// The lock this guard will restore its bytes to expects exactly the
    /// guard's class.
    pub closed spec fn lock_wf(&self) -> bool {
        *self.handle.rwlock().pred().class == *self.class
    }

    /// The guard's class is consistent, it holds exactly that class's
    /// size in bytes, and the underlying lock matches the class.
    pub open spec fn wf(&self) -> bool {
        &&& self.spec_class().wf()
        &&& self.bytes().len() == self.spec_class().spec_size()
        &&& self.lock_wf()
    }

    /// Acquires the exclusive write lock of `instance`. With verified
    /// lock discipline the lock can never be poisoned, so this always
    /// succeeds.
    pub fn acquire(instance: &'g Instance) -> (r: Result<InstanceWriteGuard<'g>, Error>)
        requires
            instance.wf(),
        ensures
            r is Ok,
            r matches Ok(guard) ==> guard.wf() && guard.spec_class() == instance.spec_class(),
    {
        let (data, handle) = instance.data.acquire_write();
        Ok(InstanceWriteGuard { class: arc_clone(&instance.class), data, handle })
    }

    /// Resolves a named attribute of the instance's class to a reference.
    pub fn attr(&self, name: &str) -> (r: Result<WriteReference, Error>)
        requires
            self.wf(),
        ensures
            r is Ok <==> Class::spec_attr(self.spec_class(), name@) is Ok,
            r matches Ok(rr) ==> {
                &&& Class::spec_attr(self.spec_class(), name@) matches Ok(p) && rr.spec_class()
                    == p.0 && rr.spec_offset() == p.1
                &&& rr.wf_in(self.spec_class().spec_size())
            },
            r matches Err(e) ==> Class::spec_attr(self.spec_class(), name@) == Err::<
                (Class, nat),
                Error,
            >(e),
    {
        WriteReference::of(self).attr(name)
    }

    /// Resolves a numeric index of the instance's class to a reference.
    pub fn item(&self, index: usize) -> (r: Result<WriteReference, Error>)
        requires
            self.wf(),
        ensures
            r is Ok <==> Class::spec_item(self.spec_class(), index as nat) is Ok,
            r matches Ok(rr) ==> {
                &&& Class::spec_item(self.spec_class(), index as nat) matches Ok(p)
                    && rr.spec_class() == p.0 && rr.spec_offset() == p.1
                &&& rr.wf_in(self.spec_class().spec_size())
            },
            r matches Err(e) ==> Class::spec_item(self.spec_class(), index as nat) == Err::<
                (Class, nat),
                Error,
            >(e),
    {
        WriteReference::of(self).item(index)
    }

    /// Applies a previously built lens to this guard, without walking
    /// names again; fails with `TypeError` when the lens's origin is not
    /// identity-equal to the instance's class.
    pub fn through(&self, lens: &Lens) -> (r: Result<WriteReference, Error>)
        requires
            self.wf(),
            lens.wf(),
        ensures
            r matches Ok(rr) ==> {
                &&& lens.spec_origin().spec_id() == self.spec_class().spec_id()
                &&& rr.spec_class() == lens.spec_class() && rr.spec_offset() == lens.spec_offset()
                &&& rr.wf_in(self.spec_class().spec_size())
            },
            r matches Err(e) ==> e == Error::TypeError,
            lens.spec_origin().spec_id() != self.spec_class().spec_id() ==> r is Err,
            lens.spec_origin().spec_id() == self.spec_class().spec_id() && lens.spec_offset()
                + lens.spec_class().spec_size() <= self.spec_class().spec_size() ==> r is Ok,
    {
        WriteReference::apply(lens, self)
    }

    /// Reads the whole instance as a scalar of tag `tag`, when its class
    /// is the leaf of exactly that tag.
    pub fn cast(&self, tag: TypeTag) -> (r: Result<Value, Error>)
        requires
            self.wf(),
        ensures
            ({
                let c = self.spec_class();
                match r {
                    Ok(v) => c matches Class::Value(vc) && vc.spec_tag() == tag && v == decode(
                        tag,
                        self.bytes().subrange(0, width(tag) as int),
                    ),
                    Err(Error::ValueError) => c matches Class::Value(vc) && vc.spec_tag() != tag,
                    Err(Error::TypeError) => !(c is Value),
                    Err(_) => false,
                }
            }),
    {
        let reference = WriteReference::of(self);
        reference.cast(self, tag)
    }

    /// Writes the whole instance as the scalar `value`, when its class
    /// is the leaf of exactly the value's tag.
    pub fn put(&mut self, value: Value) -> (r: Result<(), Error>)
        requires
            old(self).wf(),
        ensures
            final(self).wf(),
            final(self).spec_class() == old(self).spec_class(),
            final(self).bytes().len() == old(self).bytes().len(),
            ({
                let c = old(self).spec_class();
                match r {
                    Ok(()) => {
                        &&& c matches Class::Value(vc) && vc.spec_tag() == value.tag()
                        &&& final(self).bytes().subrange(0, width(value.tag()) as int) == encode(
                            value,
                        )
                        &&& forall|i: int|
                            width(value.tag()) <= i < old(self).bytes().len()
                                ==> final(self).bytes()[i] == old(self).bytes()[i]
                    },
                    Err(Error::ValueError) => c matches Class::Value(vc) && vc.spec_tag()
                        != value.tag() && final(self).bytes() == old(self).bytes(),
                    Err(Error::TypeError) => !(c is Value) && final(self).bytes()
                        == old(self).bytes(),
                    Err(_) => false,
                }
            }),
    {
        let reference = WriteReference::of(self);
        reference.put(self, value)
    }

    /// Stores the bytes back and releases the exclusive lock.
    pub fn release(self)
        requires
            self.wf(),
    {
        let InstanceWriteGuard { class: _, data, handle } = self;
        handle.release_write(data);
    }
}

impl WriteReference {
    /// The sub-class this reference addresses.
    pub closed spec fn spec_class(&self) -> Class {
        *self.class
    }

    /// The cumulative byte offset from the start of the instance.
    pub closed spec fn spec_offset(&self) -> nat {
        self.offset as nat
    }

    /// A reference is valid for a guard of size `size` when its class is
    /// consistent and it addresses bytes entirely inside the buffer.
    pub open spec fn wf_in(&self, size: nat) -> bool {
        &&& self.spec_class().wf()
        &&& self.spec_offset() + self.spec_class().spec_size() <= size
    }

    /// The root reference of a guard: the whole instance.
    pub fn of(guard: &InstanceWriteGuard<'_>) -> (r: WriteReference)
        requires
            guard.wf(),
        ensures
            r.spec_class() == guard.spec_class(),
            r.spec_offset() == 0,
            r.wf_in(guard.spec_class().spec_size()),
    {
        WriteReference { class: arc_clone(&guard.class), offset: 0 }
    }

    /// Applies a previously built lens against a guard; fails with
    /// `TypeError` when the lens's origin is not identity-equal to the
    /// guard's class.
    pub fn apply(lens: &Lens, guard: &InstanceWriteGuard<'_>) -> (r: Result<WriteReference, Error>)
        requires
            guard.wf(),
            lens.wf(),
        ensures
            r matches Ok(rr) ==> {
                &&& lens.spec_origin().spec_id() == guard.spec_class().spec_id()
                &&& rr.spec_class() == lens.spec_class() && rr.spec_offset() == lens.spec_offset()
                &&& rr.wf_in(guard.spec_class().spec_size())
            },
            r matches Err(e) ==> e == Error::TypeError,
            lens.spec_origin().spec_id() != guard.spec_class().spec_id() ==> r is Err,
            lens.spec_origin().spec_id() == guard.spec_class().spec_id() && lens.spec_offset()
                + lens.spec_class().spec_size() <= guard.spec_class().spec_size() ==> r is Ok,
    {
        if lens.origin().id() == guard.class.id() {
            let offset = lens.offset();
            let target = lens.class_arc();
            if offset <= guard.class.size() && target.size() <= guard.class.size() - offset {
                Ok(WriteReference { class: arc_clone(target), offset })
            } else {
                Err(Error::TypeError)
            }
        } else {
            Err(Error::TypeError)
        }
    }

    /// Resolves a named attribute of the addressed sub-class, moving the
    /// cursor deeper. Fails exactly as the sub-class's resolution does.
    pub fn attr(self, name: &str) -> (r: Result<WriteReference, Error>)
        requires
            self.spec_class().wf(),
            self.spec_offset() + self.spec_class().spec_size() <= usize::MAX,
        ensures
            r is Ok <==> Class::spec_attr(self.spec_class(), name@) is Ok,
            r matches Ok(rr) ==> {
                &&& Class::spec_attr(self.spec_class(), name@) matches Ok(p) && rr.spec_class()
                    == p.0 && rr.spec_offset() == self.spec_offset() + p.1
                &&& rr.spec_class().wf()
                &&& rr.spec_offset() + rr.spec_class().spec_size() <= self.spec_offset()
                    + self.spec_class().spec_size()
            },
            r matches Err(e) ==> Class::spec_attr(self.spec_class(), name@) == Err::<
                (Class, nat),
                Error,
            >(e),
    {
        match self.class.resolve_attr(name) {
            Ok(slot) => Ok(WriteReference { class: slot.class, offset: self.offset + slot.offset }),
            Err(e) => Err(e),
        }
    }

    /// Resolves a numeric index of the addressed sub-class, moving the
    /// cursor deeper. Fails exactly as the sub-class's resolution does.
    pub fn item(self, index: usize) -> (r: Result<WriteReference, Error>)
        requires
            self.spec_class().wf(),
            self.spec_offset() + self.spec_class().spec_size() <= usize::MAX,
        ensures
            r is Ok <==> Class::spec_item(self.spec_class(), index as nat) is Ok,
            r matches Ok(rr) ==> {
                &&& Class::spec_item(self.spec_class(), index as nat) matches Ok(p)
                    && rr.spec_class() == p.0 && rr.spec_offset() == self.spec_offset() + p.1
                &&& rr.spec_class().wf()
                &&& rr.spec_offset() + rr.spec_class().spec_size() <= self.spec_offset()
                    + self.spec_class().spec_size()
            },
            r matches Err(e) ==> Class::spec_item(self.spec_class(), index as nat) == Err::<
                (Class, nat),
                Error,
            >(e),
    {
        match self.class.resolve_item(index) {
            Ok(slot) => Ok(WriteReference { class: slot.class, offset: self.offset + slot.offset }),
            Err(e) => Err(e),
        }
    }

    /// Reads the addressed bytes as a scalar of tag `tag`, when the
    /// addressed sub-class is the leaf of exactly that tag; fails with
    /// `ValueError` on a leaf of another tag and with `TypeError` on an
    /// untyped (aggregate or array) sub-class.
    pub fn cast(&self, guard: &InstanceWriteGuard<'_>, tag: TypeTag) -> (r: Result<Value, Error>)
        requires
            guard.wf(),
            self.wf_in(guard.spec_class().spec_size()),
        ensures
            ({
                let c = self.spec_class();
                match r {
                    Ok(v) => c matches Class::Value(vc) && vc.spec_tag() == tag && v == decode(
                        tag,
                        guard.bytes().subrange(
                            self.spec_offset() as int,
                            self.spec_offset() + width(tag) as int,
                        ),
                    ),
                    Err(Error::ValueError) => c matches Class::Value(vc) && vc.spec_tag() != tag,
                    Err(Error::TypeError) => !(c is Value),
                    Err(_) => false,
                }
            }),
    {
        match self.class.value() {
            Some(t) => {
                if t == tag {
                    Ok(read_value(&guard.data, self.offset, tag))
                } else {
                    Err(Error::ValueError)
                }
            },
            None => Err(Error::TypeError),
        }
    }

    /// Writes the scalar `value` at the addressed bytes, when the
    /// addressed sub-class is the leaf of exactly the value's tag; every
    /// byte outside the value's width is unchanged. Fails with
    /// `ValueError` on a leaf of another tag and with `TypeError` on an
    /// untyped (aggregate or array) sub-class, leaving all bytes
    /// unchanged.
    pub fn put(&self, guard: &mut InstanceWriteGuard<'_>, value: Value) -> (r: Result<(), Error>)
        requires
            old(guard).wf(),
            self.wf_in(old(guard).spec_class().spec_size()),
        ensures
            final(guard).wf(),
            final(guard).spec_class() == old(guard).spec_class(),
            final(guard).bytes().len() == old(guard).bytes().len(),
            ({
                let c = self.spec_class();
                match r {
                    Ok(()) => {
                        &&& c matches Class::Value(vc) && vc.spec_tag() == value.tag()
                        &&& final(guard).bytes().subrange(
                            self.spec_offset() as int,
                            self.spec_offset() + width(value.tag()) as int,
                        ) == encode(value)
                        &&& forall|i: int|
                            0 <= i < old(guard).bytes().len() && !(self.spec_offset() <= i
                                < self.spec_offset() + width(value.tag()))
                                ==> final(guard).bytes()[i] == old(guard).bytes()[i]
                    },
                    Err(Error::ValueError) => c matches Class::Value(vc) && vc.spec_tag()
                        != value.tag() && final(guard).bytes() == old(guard).bytes(),
                    Err(Error::TypeError) => !(c is Value) && final(guard).bytes()
                        == old(guard).bytes(),
                    Err(_) => false,
                }
            }),
    {
        match self.class.value() {
            Some(t) => {
                if t == value.tag_of() {
                    write_value(&mut guard.data, self.offset, value);
                    Ok(())
                } else {
                    Err(Error::ValueError)
                }
            },
            None => Err(Error::TypeError),
        }
    }
}

impl Clone for WriteReference {
    /// A reference clones to an equal reference: the class handle is
    /// shared and the offset copied.
    fn clone(&self) -> (r: Self)
        ensures
            r == *self,
    {
        WriteReference { class: arc_clone(&self.class), offset: self.offset }
    }
}

} // verus!
