use crate::class::{arc_clone, Class};
use crate::error::Error;
use std::sync::Arc;
use vstd::prelude::*;

verus! {

/// One step of attribute/index resolution: the reached sub-class and its
/// byte offset relative to the class the step was resolved against.
pub struct Slot {
    pub class: Arc<Class>,
    pub offset: usize,
}

/// A reusable, origin-bound address: the sub-class and cumulative byte
/// offset reached by navigating attributes and indices from an origin
/// class. A lens is pure data; it can be applied later to any guard whose
/// instance class has the origin's identity.
pub struct Lens {
    origin: Arc<Class>,
    class: Arc<Class>,
    offset: usize,
}

impl Lens {
    /// The class the whole navigation chain started from.
    pub closed spec fn spec_origin(&self) -> Class {
        *self.origin
    }

    /// The sub-class currently addressed.
    pub closed spec fn spec_class(&self) -> Class {
        *self.class
    }

    /// The cumulative byte offset from the origin.
    pub closed spec fn spec_offset(&self) -> nat {
        self.offset as nat
    }

    /// A lens stays inside its origin's layout: the addressed sub-class
    /// fits entirely within the origin's size.
    pub open spec fn wf(&self) -> bool {
        &&& self.spec_origin().wf()
        &&& self.spec_class().wf()
        &&& self.spec_offset() + self.spec_class().spec_size() <= self.spec_origin().spec_size()
    }

    /// The origin class the lens must be applied against.
    pub fn origin(&self) -> (c: &Arc<Class>)
        ensures
            **c == self.spec_origin(),
    {
        &self.origin
    }

    /// The sub-class the lens addresses.
    pub fn class_arc(&self) -> (c: &Arc<Class>)
        ensures
            **c == self.spec_class(),
    {
        &self.class
    }

    /// The cumulative byte offset the lens addresses.
    pub fn offset(&self) -> (o: usize)
        ensures
            o as nat == self.spec_offset(),
    {
        self.offset
    }

    /// The identity lens of a class: addresses the whole of it.
    pub fn of(class: Arc<Class>) -> (lens: Lens)
        requires
            (*class).wf(),
        ensures
            lens.spec_origin() == *class,
            lens.spec_class() == *class,
            lens.spec_offset() == 0,
            lens.wf(),
    {
        Lens { origin: arc_clone(&class), class, offset: 0 }
    }

    /// Resolves a named attribute of the addressed sub-class, extending the
    /// chain. Fails exactly as the sub-class's own resolution does.
    pub fn attr(self, name: &str) -> (r: Result<Lens, Error>)
        requires
            self.wf(),
        ensures
            r is Ok <==> Class::spec_attr(self.spec_class(), name@) is Ok,
            r matches Ok(l) ==> {
                &&& Class::spec_attr(self.spec_class(), name@) matches Ok(p) && l.spec_class()
                    == p.0 && l.spec_offset() == self.spec_offset() + p.1
                &&& l.spec_origin() == self.spec_origin()
                &&& l.wf()
            },
            r matches Err(e) ==> Class::spec_attr(self.spec_class(), name@) == Err::<
                (Class, nat),
                Error,
            >(e),
    {
        match self.class.resolve_attr(name) {
            Ok(slot) => Ok(
                Lens { origin: self.origin, class: slot.class, offset: self.offset + slot.offset },
            ),
            Err(e) => Err(e),
        }
    }

    /// Resolves a numeric index of the addressed sub-class, extending the
    /// chain. Fails exactly as the sub-class's own resolution does.
    pub fn item(self, index: usize) -> (r: Result<Lens, Error>)
        requires
            self.wf(),
        ensures
            r is Ok <==> Class::spec_item(self.spec_class(), index as nat) is Ok,
            r matches Ok(l) ==> {
                &&& Class::spec_item(self.spec_class(), index as nat) matches Ok(p)
                    && l.spec_class() == p.0 && l.spec_offset() == self.spec_offset() + p.1
                &&& l.spec_origin() == self.spec_origin()
                &&& l.wf()
            },
            r matches Err(e) ==> Class::spec_item(self.spec_class(), index as nat) == Err::<
                (Class, nat),
                Error,
            >(e),
    {
        match self.class.resolve_item(index) {
            Ok(slot) => Ok(
                Lens { origin: self.origin, class: slot.class, offset: self.offset + slot.offset },
            ),
            Err(e) => Err(e),
        }
    }
}

} // verus!
