use crate::class::lens::Lens;
use crate::class::value::{decode, width, read_value, TypeTag, Value};
use crate::class::{arc_clone, Class};
use crate::error::Error;
use crate::instance::{Instance, InstancePred};
use std::sync::Arc;
use vstd::prelude::*;
use vstd::rwlock::{ReadHandle, RwLock};

verus! {

/// A scoped shared-lock acquisition over one instance: while it lives,
/// the instance's bytes are frozen and may be read through references.
pub struct InstanceReadGuard<'g> {
    class: Arc<Class>,
    handle: ReadHandle<'g, Vec<u8>, InstancePred>,
}

/// A guard-scoped cursor: a sub-class of the guard's class together with
/// the cumulative byte offset where it lives, navigable without
/// re-acquiring the lock.
pub struct ReadReference {
    class: Arc<Class>,
    offset: usize,
}

impl<'g> InstanceReadGuard<'g> {
    /// The class of the guarded instance.
    pub closed spec fn spec_class(&self) -> Class {
        *self.class
    }

    /// The bytes this guard observes; fixed for the guard's lifetime.
    pub closed spec fn bytes(&self) -> Seq<u8> {
        self.handle.view()@
    }

    /// The lock this guard was acquired from.
    pub closed spec fn lock(&self) -> RwLock<Vec<u8>, InstancePred> {
        self.handle.rwlock()
    }

    /// The guard's class is consistent and its byte snapshot has exactly
    /// that class's size.
    pub open spec fn wf(&self) -> bool {
        &&& self.spec_class().wf()
        &&& self.bytes().len() == self.spec_class().spec_size()
    }

    /// Acquires the shared read lock of `instance`. With verified lock
    /// discipline the lock can never be poisoned, so this always
    /// succeeds.
    pub fn acquire(instance: &'g Instance) -> (r: Result<InstanceReadGuard<'g>, Error>)
        requires
            instance.wf(),
        ensures
            r is Ok,
            r matches Ok(guard) ==> guard.wf() && guard.spec_class() == instance.spec_class()
                && guard.lock() == instance.spec_lock(),
    {
        let handle = instance.data.acquire_read();
        Ok(InstanceReadGuard { class: arc_clone(&instance.class), handle })
    }

    /// Concurrent readers are consistent: two read guards acquired from
    /// the same instance's lock observe exactly the same bytes.
    pub fn readers_agree(&self, other: &InstanceReadGuard<'_>)
        requires
            self.lock() == other.lock(),
        ensures
            self.bytes() == other.bytes(),
    {
        proof {
            ReadHandle::lemma_readers_match(&self.handle, &other.handle);
        }
    }

    /// Resolves a named attribute of the instance's class to a reference.
    pub fn attr(&self, name: &str) -> (r: Result<ReadReference, Error>)
        requires
            self.wf(),
        ensures
            r is Ok <==> Class::spec_attr(self.spec_class(), name@) is Ok,
            r matches Ok(rr) ==> {
                &&& Class::spec_attr(self.spec_class(), name@) matches Ok(p) && rr.spec_class()
                    == p.0 && rr.spec_offset() == p.1
                &&& rr.wf_in(self.spec_class().spec_size())
            },
            r matches Err(e) ==> Class::spec_attr(self.spec_class(), name@) == Err::<
                (Class, nat),
                Error,
            >(e),
    {
        ReadReference::of(self).attr(name)
    }

    /// Resolves a numeric index of the instance's class to a reference.
    pub fn item(&self, index: usize) -> (r: Result<ReadReference, Error>)
        requires
            self.wf(),
        ensures
            r is Ok <==> Class::spec_item(self.spec_class(), index as nat) is Ok,
            r matches Ok(rr) ==> {
                &&& Class::spec_item(self.spec_class(), index as nat) matches Ok(p)
                    && rr.spec_class() == p.0 && rr.spec_offset() == p.1
                &&& rr.wf_in(self.spec_class().spec_size())
            },
            r matches Err(e) ==> Class::spec_item(self.spec_class(), index as nat) == Err::<
                (Class, nat),
                Error,
            >(e),
    {
        ReadReference::of(self).item(index)
    }

    /// Applies a previously built lens to this guard, without walking
    /// names again; fails with `TypeError` when the lens's origin is not
    /// identity-equal to the instance's class.
    pub fn through(&self, lens: &Lens) -> (r: Result<ReadReference, Error>)
        requires
            self.wf(),
            lens.wf(),
        ensures
            r matches Ok(rr) ==> {
                &&& lens.spec_origin().spec_id() == self.spec_class().spec_id()
                &&& rr.spec_class() == lens.spec_class() && rr.spec_offset() == lens.spec_offset()
                &&& rr.wf_in(self.spec_class().spec_size())
            },
            r matches Err(e) ==> e == Error::TypeError,
            lens.spec_origin().spec_id() != self.spec_class().spec_id() ==> r is Err,
            lens.spec_origin().spec_id() == self.spec_class().spec_id() && lens.spec_offset()
                + lens.spec_class().spec_size() <= self.spec_class().spec_size() ==> r is Ok,
    {
        ReadReference::apply(lens, self)
    }

    /// Reads the whole instance as a scalar of tag `tag`, when its class
    /// is the leaf of exactly that tag.
    pub fn cast(&self, tag: TypeTag) -> (r: Result<Value, Error>)
        requires
            self.wf(),
        ensures
            ({
                let c = self.spec_class();
                match r {
                    Ok(v) => c matches Class::Value(vc) && vc.spec_tag() == tag && v == decode(
                        tag,
                        self.bytes().subrange(0, width(tag) as int),
                    ),
                    Err(Error::ValueError) => c matches Class::Value(vc) && vc.spec_tag() != tag,
                    Err(Error::TypeError) => !(c is Value),
                    Err(_) => false,
                }
            }),
    {
        let reference = ReadReference::of(self);
        reference.cast(self, tag)
    }

    /// Releases the shared lock.
    pub fn release(self) {
        let InstanceReadGuard { class: _, handle } = self;
        handle.release_read();
    }
}

impl ReadReference {
    /// The sub-class this reference addresses.
    pub closed spec fn spec_class(&self) -> Class {
        *self.class
    }

    /// The cumulative byte offset from the start of the instance.
    pub closed spec fn spec_offset(&self) -> nat {
        self.offset as nat
    }

    /// A reference is valid for a guard of size `size` when its class is
    /// consistent and it addresses bytes entirely inside the buffer.
    pub open spec fn wf_in(&self, size: nat) -> bool {
        &&& self.spec_class().wf()
        &&& self.spec_offset() + self.spec_class().spec_size() <= size
    }

    /// The root reference of a guard: the whole instance.
    pub fn of(guard: &InstanceReadGuard<'_>) -> (r: ReadReference)
        requires
            guard.wf(),
        ensures
            r.spec_class() == guard.spec_class(),
            r.spec_offset() == 0,
            r.wf_in(guard.spec_class().spec_size()),
    {
        ReadReference { class: arc_clone(&guard.class), offset: 0 }
    }

    /// Applies a previously built lens against a guard; fails with
    /// `TypeError` when the lens's origin is not identity-equal to the
    /// guard's class.
    pub fn apply(lens: &Lens, guard: &InstanceReadGuard<'_>) -> (r: Result<ReadReference, Error>)
        requires
            guard.wf(),
            lens.wf(),
        ensures
            r matches Ok(rr) ==> {
                &&& lens.spec_origin().spec_id() == guard.spec_class().spec_id()
                &&& rr.spec_class() == lens.spec_class() && rr.spec_offset() == lens.spec_offset()
                &&& rr.wf_in(guard.spec_class().spec_size())
            },
            r matches Err(e) ==> e == Error::TypeError,
            lens.spec_origin().spec_id() != guard.spec_class().spec_id() ==> r is Err,
            lens.spec_origin().spec_id() == guard.spec_class().spec_id() && lens.spec_offset()
                + lens.spec_class().spec_size() <= guard.spec_class().spec_size() ==> r is Ok,
    {
        if lens.origin().id() == guard.class.id() {
            let offset = lens.offset();
            let target = lens.class_arc();
            if offset <= guard.class.size() && target.size() <= guard.class.size() - offset {
                Ok(ReadReference { class: arc_clone(target), offset })
            } else {
                Err(Error::TypeError)
            }
        } else {
            Err(Error::TypeError)
        }
    }

    /// Resolves a named attribute of the addressed sub-class, moving the
    /// cursor deeper. Fails exactly as the sub-class's resolution does.
    pub fn attr(self, name: &str) -> (r: Result<ReadReference, Error>)
        requires
            self.spec_class().wf(),
            self.spec_offset() + self.spec_class().spec_size() <= usize::MAX,
        ensures
            r is Ok <==> Class::spec_attr(self.spec_class(), name@) is Ok,
            r matches Ok(rr) ==> {
                &&& Class::spec_attr(self.spec_class(), name@) matches Ok(p) && rr.spec_class()
                    == p.0 && rr.spec_offset() == self.spec_offset() + p.1
                &&& rr.spec_class().wf()
                &&& rr.spec_offset() + rr.spec_class().spec_size() <= self.spec_offset()
                    + self.spec_class().spec_size()
            },
            r matches Err(e) ==> Class::spec_attr(self.spec_class(), name@) == Err::<
                (Class, nat),
                Error,
            >(e),
    {
        match self.class.resolve_attr(name) {
            Ok(slot) => Ok(ReadReference { class: slot.class, offset: self.offset + slot.offset }),
            Err(e) => Err(e),
        }
    }

    /// Resolves a numeric index of the addressed sub-class, moving the
    /// cursor deeper. Fails exactly as the sub-class's resolution does.
    pub fn item(self, index: usize) -> (r: Result<ReadReference, Error>)
        requires
            self.spec_class().wf(),
            self.spec_offset() + self.spec_class().spec_size() <= usize::MAX,
        ensures
            r is Ok <==> Class::spec_item(self.spec_class(), index as nat) is Ok,
            r matches Ok(rr) ==> {
                &&& Class::spec_item(self.spec_class(), index as nat) matches Ok(p)
                    && rr.spec_class() == p.0 && rr.spec_offset() == self.spec_offset() + p.1
                &&& rr.spec_class().wf()
                &&& rr.spec_offset() + rr.spec_class().spec_size() <= self.spec_offset()
                    + self.spec_class().spec_size()
            },
            r matches Err(e) ==> Class::spec_item(self.spec_class(), index as nat) == Err::<
                (Class, nat),
                Error,
            >(e),
    {
        match self.class.resolve_item(index) {
            Ok(slot) => Ok(ReadReference { class: slot.class, offset: self.offset + slot.offset }),
            Err(e) => Err(e),
        }
    }

    /// Reads the addressed bytes as a scalar of tag `tag`, when the
    /// addressed sub-class is the leaf of exactly that tag; fails with
    /// `ValueError` on a leaf of another tag and with `TypeError` on an
    /// untyped (aggregate or array) sub-class.
    pub fn cast(&self, guard: &InstanceReadGuard<'_>, tag: TypeTag) -> (r: Result<Value, Error>)
        requires
            guard.wf(),
            self.wf_in(guard.spec_class().spec_size()),
        ensures
            ({
                let c = self.spec_class();
                match r {
                    Ok(v) => c matches Class::Value(vc) && vc.spec_tag() == tag && v == decode(
                        tag,
                        guard.bytes().subrange(
                            self.spec_offset() as int,
                            self.spec_offset() + width(tag) as int,
                        ),
                    ),
                    Err(Error::ValueError) => c matches Class::Value(vc) && vc.spec_tag() != tag,
                    Err(Error::TypeError) => !(c is Value),
                    Err(_) => false,
                }
            }),
    {
        match self.class.value() {
            Some(t) => {
                if t == tag {
                    let bytes = guard.handle.borrow();
                    Ok(read_value(bytes, self.offset, tag))
                } else {
                    Err(Error::ValueError)
                }
            },
            None => Err(Error::TypeError),
        }
    }
}

impl Clone for ReadReference {
    /// A reference clones to an equal reference: the class handle is
    /// shared and the offset copied.
    fn clone(&self) -> (r: Self)
        ensures
            r == *self,
    {
        ReadReference { class: arc_clone(&self.class), offset: self.offset }
    }
}

} // verus!
