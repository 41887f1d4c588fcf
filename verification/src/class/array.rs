use crate::class::id::{Id, IdSource};
use crate::class::lens::Slot;
use crate::class::{arc_clone, Class};
use crate::error::Error;
use std::sync::Arc;
use vstd::arithmetic::mul::lemma_mul_inequality;
use vstd::prelude::*;

verus! {

/// A fixed-length homogeneous sequence class: `length` elements of one
/// element class, laid out contiguously.
pub struct Array {
    id: Id,
    element: Arc<Class>,
    length: usize,
    size: usize,
}

impl Array {
    /// The identity assigned at construction.
    pub closed spec fn spec_id(&self) -> Id {
        self.id
    }

    /// The class of every element.
    pub closed spec fn spec_element(&self) -> Class {
        *self.element
    }

    /// The number of elements.
    pub closed spec fn spec_length(&self) -> nat {
        self.length as nat
    }

    /// The total size in bytes: element size times length.
    pub closed spec fn spec_size(&self) -> nat {
        self.size as nat
    }

    /// The byte alignment of the array: its element's alignment.
    pub open spec fn spec_align(&self) -> nat
        decreases self,
    {
        self.spec_element().spec_align()
    }

    /// An array is consistent when its element class is and its size is
    /// exactly element size times length.
    pub open spec fn wf(&self) -> bool
        decreases self,
    {
        &&& self.spec_element().wf()
        &&& self.spec_size() == self.spec_element().spec_size() * self.spec_length()
    }

    /// Builds an array class over `element` with `length` elements,
    /// assigning a fresh identity.
    pub fn new(element: Arc<Class>, length: usize, source: &mut IdSource) -> (a: Array)
        requires
            (*element).wf(),
            (*element).spec_size() * length <= usize::MAX,
            old(source).spec_next() < u64::MAX,
        ensures
            a.wf(),
            a.spec_element() == *element,
            a.spec_length() == length as nat,
            a.spec_size() == (*element).spec_size() * length,
            a.spec_id().spec_value() == old(source).spec_next(),
            final(source).spec_next() == old(source).spec_next() + 1,
    {
        let size = element.size() * length;
        Array { id: Id::new(source), element, length, size }
    }

    /// The stored size.
    pub fn size(&self) -> (s: usize)
        ensures
            s == self.spec_size(),
    {
        self.size
    }

    /// The identity of this array class.
    pub fn id(&self) -> (i: Id)
        ensures
            i == self.spec_id(),
    {
        self.id
    }

    /// The element class.
    pub fn element(&self) -> (e: &Class)
        ensures
            *e == self.spec_element(),
    {
        &self.element
    }

    /// The byte alignment of the array: its element's alignment.
    pub fn align(&self) -> (a: usize)
        ensures
            a == self.spec_align(),
            crate::class::object::is_valid_align(a as nat),
        decreases self,
    {
        self.element.align()
    }

    /// An array has no named members: always `TypeError`.
    pub fn attr(&self, _name: &str) -> (r: Result<Slot, Error>)
        ensures
            r matches Err(e) && e == Error::TypeError,
    {
        Err(Error::TypeError)
    }

    /// Resolves an element index to the element class and its offset
    /// `index * element size`; fails with `IndexError` exactly when the
    /// index is not below the length.
    pub fn item(&self, index: usize) -> (r: Result<Slot, Error>)
        requires
            self.wf(),
        ensures
            r is Ok <==> index < self.spec_length(),
            r matches Ok(slot) ==> {
                &&& *slot.class == self.spec_element()
                &&& slot.offset == index * self.spec_element().spec_size()
                &&& (*slot.class).wf()
                &&& slot.offset + (*slot.class).spec_size() <= self.spec_size()
            },
            r matches Err(e) ==> e == Error::IndexError,
    {
        if index < self.length {
            proof {
                let esz = self.spec_element().spec_size() as int;
                let len = self.spec_length() as int;
                lemma_mul_inequality(index + 1, len, esz);
                assert((index + 1) * esz == index * esz + esz) by (nonlinear_arith);
                assert(esz * index == index * esz) by (nonlinear_arith);
                assert(len * esz == esz * len) by (nonlinear_arith);
                assert(index * esz + esz <= self.spec_size());
            }
            Ok(Slot { class: arc_clone(&self.element), offset: self.element.size() * index })
        } else {
            Err(Error::IndexError)
        }
    }
}

/// Distinct elements of a consistent array occupy disjoint byte ranges,
/// so a write through one index's reference never changes the bytes of
/// another index.
pub proof fn lemma_array_items_disjoint(a: &Array, i: int, j: int)
    requires
        a.wf(),
        0 <= i < a.spec_length(),
        0 <= j < a.spec_length(),
        i != j,
    ensures
        ({
            let esz = a.spec_element().spec_size() as int;
            i * esz + esz <= j * esz || j * esz + esz <= i * esz
        }),
{
    let esz = a.spec_element().spec_size() as int;
    if i < j {
        lemma_mul_inequality(i + 1, j, esz);
        assert((i + 1) * esz == i * esz + esz) by (nonlinear_arith);
    } else {
        lemma_mul_inequality(j + 1, i, esz);
        assert((j + 1) * esz == j * esz + esz) by (nonlinear_arith);
    }
}

/// An array's alignment is a valid one.
pub proof fn lemma_array_align_valid(a: Array)
    ensures
        crate::class::object::is_valid_align(a.spec_align()),
    decreases a,
{
    crate::class::lemma_class_align_valid(a.spec_element());
}


} // verus!
