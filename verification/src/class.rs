pub mod array;
pub mod id;
pub mod lens;
pub mod object;
pub mod value;

use crate::class::array::Array;
use crate::class::id::Id;
use crate::class::lens::{Lens, Slot};
use crate::class::object::{find_member, Object};
use crate::class::value::{width, TypeTag, ValueClass};
use crate::error::Error;
use std::sync::Arc;
use vstd::prelude::*;

verus! {

/// Relies on std's `Arc::clone`: the clone is another handle to the same
/// allocation, so it carries the same value as the original.
#[verifier::external_body]
pub fn arc_clone<T>(a: &Arc<T>) -> (r: Arc<T>)
    ensures
        r == *a,
{
    a.clone()
}

/// A runtime type descriptor: a scalar leaf, a named aggregate, or a
/// fixed-length homogeneous array. Immutable once built; carries a
/// process-unique identity, a size, an alignment, and the capability to
/// resolve named attributes or numeric indices to sub-classes at offsets.
pub enum Class {
    Value(ValueClass),
    Object(Object),
    Array(Array),
}

impl Class {
    /// The identity of the descriptor, whichever variant carries it.
    pub open spec fn spec_id(&self) -> Id {
        match self {
            Class::Value(v) => v.spec_id(),
            Class::Object(o) => o.spec_id(),
            Class::Array(a) => a.spec_id(),
        }
    }

    /// The size in bytes of one instance of the class.
    pub open spec fn spec_size(&self) -> nat {
        match self {
            Class::Value(v) => width(v.spec_tag()),
            Class::Object(o) => o.spec_size(),
            Class::Array(a) => a.spec_size(),
        }
    }

    /// The byte alignment of the class: the scalar's width for a leaf,
    /// the largest member alignment for an aggregate (1 when empty), the
    /// element's alignment for an array.
    pub open spec fn spec_align(&self) -> nat
        decreases self,
    {
        match self {
            Class::Value(v) => width(v.spec_tag()),
            Class::Object(o) => o.spec_align(),
            Class::Array(a) => a.spec_align(),
        }
    }

    /// Structural consistency of the descriptor tree: sizes fit the
    /// machine, aggregate layouts are the alignment-padded sum of their
    /// members, array sizes are element size times length.
    pub open spec fn wf(&self) -> bool
        decreases self,
    {
        &&& self.spec_size() <= usize::MAX
        &&& match self {
            Class::Value(_) => true,
            Class::Object(o) => o.wf(),
            Class::Array(a) => a.wf(),
        }
    }

    /// What resolving the attribute `name` against `c` yields: `TypeError`
    /// on a leaf or array, the named member's class and offset on an
    /// aggregate that has the name, `AttributeError` otherwise.
    pub open spec fn spec_attr(c: Class, name: Seq<char>) -> Result<(Class, nat), Error> {
        match c {
            Class::Value(_) => Err(Error::TypeError),
            Class::Array(_) => Err(Error::TypeError),
            Class::Object(o) => match find_member(o.spec_members(), name) {
                Some(i) => Ok((*o.spec_members()[i].class, o.spec_members()[i].offset as nat)),
                None => Err(Error::AttributeError),
            },
        }
    }

    /// What resolving the index `index` against `c` yields: `TypeError`
    /// on a leaf or aggregate, the element class at `index * element
    /// size` on an array when in bounds, `IndexError` otherwise.
    pub open spec fn spec_item(c: Class, index: nat) -> Result<(Class, nat), Error> {
        match c {
            Class::Value(_) => Err(Error::TypeError),
            Class::Object(_) => Err(Error::TypeError),
            Class::Array(a) => if index < a.spec_length() {
                Ok((a.spec_element(), index * a.spec_element().spec_size()))
            } else {
                Err(Error::IndexError)
            },
        }
    }

    /// The identity of the descriptor.
    pub fn id(&self) -> (i: Id)
        ensures
            i == self.spec_id(),
    {
        match self {
            Class::Value(v) => v.id(),
            Class::Object(o) => o.id(),
            Class::Array(a) => a.id(),
        }
    }

    /// The size in bytes of one instance of the class.
    pub fn size(&self) -> (s: usize)
        requires
            self.wf(),
        ensures
            s == self.spec_size(),
    {
        match self {
            Class::Value(v) => value::width_of(v.tag()),
            Class::Object(o) => o.size(),
            Class::Array(a) => a.size(),
        }
    }

    /// The byte alignment of the class.
    pub fn align(&self) -> (a: usize)
        ensures
            a == self.spec_align(),
            object::is_valid_align(a as nat),
        decreases self,
    {
        match self {
            Class::Value(v) => value::width_of(v.tag()),
            Class::Object(o) => o.align(),
            Class::Array(a) => a.align(),
        }
    }

    /// The combined layout: size and alignment.
    pub fn layout(&self) -> (l: (usize, usize))
        requires
            self.wf(),
        ensures
            l.0 == self.spec_size(),
            l.1 == self.spec_align(),
            object::is_valid_align(l.1 as nat),
    {
        (self.size(), self.align())
    }

    /// Produces the initial contents of one instance of this class: a
    /// buffer of exactly `size` bytes, every byte zero, which is the
    /// stored default of every leaf reachable in the layout (numeric
    /// zero, or `false`). Members are thereby initialized in declaration
    /// order and array elements in ascending order, trivially so since
    /// all defaults share the same representation.
    pub fn construct(&self) -> (buffer: Vec<u8>)
        requires
            self.wf(),
        ensures
            buffer@.len() == self.spec_size(),
            forall|i: int| 0 <= i < buffer@.len() ==> buffer@[i] == 0u8,
    {
        let n = self.size();
        let mut buffer: Vec<u8> = Vec::new();
        while buffer.len() < n
            invariant
                buffer@.len() <= n,
                forall|i: int| 0 <= i < buffer@.len() ==> buffer@[i] == 0u8,
            decreases n - buffer@.len(),
        {
            buffer.push(0u8);
        }
        buffer
    }

    /// The type-identity token of the class: the scalar tag of a leaf,
    /// nothing for an aggregate or array (casting through those is a
    /// `TypeError`).
    pub fn value(&self) -> (t: Option<TypeTag>)
        ensures
            match self {
                Class::Value(v) => t == Some(v.spec_tag()),
                _ => t is None,
            },
    {
        match self {
            Class::Value(v) => Some(v.tag()),
            Class::Object(_) => None,
            Class::Array(_) => None,
        }
    }

    /// Resolves one attribute step against this class, as
    /// [`Class::spec_attr`] describes; a returned slot stays within this
    /// class's size.
    pub fn resolve_attr(&self, name: &str) -> (r: Result<Slot, Error>)
        requires
            self.wf(),
        ensures
            r is Ok <==> Class::spec_attr(*self, name@) is Ok,
            r matches Ok(slot) ==> {
                &&& Class::spec_attr(*self, name@) matches Ok(p) && *slot.class == p.0
                    && slot.offset == p.1
                &&& (*slot.class).wf()
                &&& slot.offset + (*slot.class).spec_size() <= self.spec_size()
            },
            r matches Err(e) ==> Class::spec_attr(*self, name@) == Err::<(Class, nat), Error>(e),
    {
        match self {
            Class::Value(v) => v.attr(name),
            Class::Object(o) => o.attr(name),
            Class::Array(a) => a.attr(name),
        }
    }

    /// Resolves one index step against this class, as
    /// [`Class::spec_item`] describes; a returned slot stays within this
    /// class's size.
    pub fn resolve_item(&self, index: usize) -> (r: Result<Slot, Error>)
        requires
            self.wf(),
        ensures
            r is Ok <==> Class::spec_item(*self, index as nat) is Ok,
            r matches Ok(slot) ==> {
                &&& Class::spec_item(*self, index as nat) matches Ok(p) && *slot.class == p.0
                    && slot.offset == p.1
                &&& (*slot.class).wf()
                &&& slot.offset + (*slot.class).spec_size() <= self.spec_size()
            },
            r matches Err(e) ==> Class::spec_item(*self, index as nat) == Err::<
                (Class, nat),
                Error,
            >(e),
    {
        match self {
            Class::Value(v) => v.item(index),
            Class::Object(o) => o.item(index),
            Class::Array(a) => a.item(index),
        }
    }

}

/// The capability of building reusable lenses from a shared class: one
/// resolution step from the class itself.
pub trait Accessor {
    /// The class the accessor resolves against.
    spec fn accessor_class(&self) -> Class;

    /// Starts a reusable lens at this class and resolves one attribute,
    /// so that `class.attr(name)` addresses that member of any instance
    /// of this class.
    fn attr(&self, name: &str) -> (r: Result<Lens, Error>)
        requires
            self.accessor_class().wf(),
        ensures
            r is Ok <==> Class::spec_attr(self.accessor_class(), name@) is Ok,
            r matches Ok(l) ==> {
                &&& Class::spec_attr(self.accessor_class(), name@) matches Ok(p) && l.spec_class()
                    == p.0 && l.spec_offset() == p.1
                &&& l.spec_origin() == self.accessor_class()
                &&& l.wf()
            },
            r matches Err(e) ==> Class::spec_attr(self.accessor_class(), name@) == Err::<
                (Class, nat),
                Error,
            >(e),
    ;

    /// Starts a reusable lens at this class and resolves one index.
    fn item(&self, index: usize) -> (r: Result<Lens, Error>)
        requires
            self.accessor_class().wf(),
        ensures
            r is Ok <==> Class::spec_item(self.accessor_class(), index as nat) is Ok,
            r matches Ok(l) ==> {
                &&& Class::spec_item(self.accessor_class(), index as nat) matches Ok(p)
                    && l.spec_class() == p.0 && l.spec_offset() == p.1
                &&& l.spec_origin() == self.accessor_class()
                &&& l.wf()
            },
            r matches Err(e) ==> Class::spec_item(self.accessor_class(), index as nat) == Err::<
                (Class, nat),
                Error,
            >(e),
    ;
}

impl Accessor for Arc<Class> {
    open spec fn accessor_class(&self) -> Class {
        **self
    }

    fn attr(&self, name: &str) -> (r: Result<Lens, Error>) {
        Lens::of(arc_clone(self)).attr(name)
    }

    fn item(&self, index: usize) -> (r: Result<Lens, Error>) {
        Lens::of(arc_clone(self)).item(index)
    }
}

/// Every class alignment is a power of two between 1 and 8: scalar
/// widths are, the maximum of such alignments is, and an array inherits
/// its element's.
pub proof fn lemma_class_align_valid(c: Class)
    ensures
        object::is_valid_align(c.spec_align()),
    decreases c,
{
    match c {
        Class::Value(_) => {},
        Class::Object(o) => {
            object::lemma_object_align_valid(o);
        },
        Class::Array(a) => {
            array::lemma_array_align_valid(a);
        },
    }
}


} // verus!
