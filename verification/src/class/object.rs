use crate::class::id::{Id, IdSource};
use crate::class::lens::Slot;
use crate::class::{arc_clone, Class};
use crate::error::Error;
use vstd::arithmetic::div_mod::{
    lemma_fundamental_div_mod, lemma_mod_division_less_than_divisor, lemma_mod_multiples_basic,
};
use std::sync::Arc;
use vstd::prelude::*;

verus! {

/// One named member of an aggregate: its name, class, and byte offset
/// from the start of the aggregate.
pub struct Member {
    pub name: String,
    pub class: Arc<Class>,
    pub offset: usize,
}

/// A named aggregate class: an ordered sequence of members at offsets
/// computed by sequential alignment padding from zero, with an optional
/// single-inheritance base.
pub struct Object {
    id: Id,
    pub name: String,
    base: Option<Arc<Object>>,
    members: Vec<Member>,
    size: usize,
}

/// Accumulates `(name, class)` pairs into the member layout of an
/// aggregate; freezing it with [`Object::new`] assigns a fresh identity.
pub struct Builder {
    pub name: String,
    base: Option<Arc<Object>>,
    members: Vec<Member>,
    pub size: usize,
}

/// Rounds `offset` up to the next multiple of `align` (`offset` itself
/// when `align` is zero).
pub open spec fn spec_align_up(offset: nat, align: nat) -> nat {
    if align == 0 {
        offset
    } else {
        (((offset + align - 1) / (align as int)) * align) as nat
    }
}

/// An alignment a class can have: a power of two between 1 and 8.
pub open spec fn is_valid_align(a: nat) -> bool {
    a == 1 || a == 2 || a == 4 || a == 8
}

/// Rounding up to a valid alignment moves an offset forward by less than
/// one alignment unit, onto a multiple of it.
pub proof fn lemma_align_up(offset: nat, align: nat)
    requires
        align > 0,
    ensures
        offset <= spec_align_up(offset, align) < offset + align,
        spec_align_up(offset, align) % align == 0,
{
    let x = (offset + align - 1) as int;
    let a = align as int;
    lemma_fundamental_div_mod(x, a);
    lemma_mod_division_less_than_divisor(x, a);
    lemma_mod_multiples_basic(x / a, a);
}

/// A multiple of a valid alignment that fits in `usize` leaves room for
/// `align - 1` more bytes, because `usize::MAX + 1` is itself a multiple.
proof fn lemma_aligned_leaves_room(v: nat, align: nat)
    requires
        is_valid_align(align),
        v % align == 0,
        v <= usize::MAX,
    ensures
        v + align - 1 <= usize::MAX,
{
    lemma_fundamental_div_mod(v as int, align as int);
    assert(v + align - 1 <= usize::MAX) by (nonlinear_arith)
        requires
            is_valid_align(align),
            v == align * (v as int / align as int),
            v <= usize::MAX,
    {
    }
}

/// Rounds `offset` up to the next multiple of `align` (`offset` itself
/// when `align` is zero).
pub fn align(offset: usize, align_to: usize) -> (r: usize)
    requires
        align_to == 0 || is_valid_align(align_to as nat),
        spec_align_up(offset as nat, align_to as nat) <= usize::MAX,
    ensures
        r == spec_align_up(offset as nat, align_to as nat),
{
    if align_to == 0 {
        offset
    } else {
        proof {
            lemma_align_up(offset as nat, align_to as nat);
            lemma_aligned_leaves_room(
                spec_align_up(offset as nat, align_to as nat),
                align_to as nat,
            );
        }
        (offset + (align_to - 1)) / align_to * align_to
    }
}

/// The members of `ms`, laid out in order starting from running size
/// `cur`, have consistent offsets: each is its class's alignment rounding
/// of the end of the previous member.
pub open spec fn members_wf(ms: Seq<Member>, cur: nat) -> bool
    decreases ms,
{
    if ms.len() == 0 {
        true
    } else {
        let m = ms[0];
        &&& (*m.class).wf()
        &&& m.offset == spec_align_up(cur, (*m.class).spec_align())
        &&& members_wf(ms.drop_first(), (m.offset + (*m.class).spec_size()) as nat)
    }
}

/// The running size after laying out all members of `ms`, starting from
/// `cur`: the padded end of the last member.
pub open spec fn members_end(ms: Seq<Member>, cur: nat) -> nat
    decreases ms,
{
    if ms.len() == 0 {
        cur
    } else {
        members_end(
            ms.drop_first(),
            spec_align_up(cur, (*ms[0].class).spec_align()) + (*ms[0].class).spec_size(),
        )
    }
}

/// The largest member alignment in `ms`, or 1 when there are none.
pub open spec fn members_align(ms: Seq<Member>) -> nat
    decreases ms,
{
    if ms.len() == 0 {
        1
    } else {
        let rest = members_align(ms.drop_first());
        let first = (*ms[0].class).spec_align();
        if first > rest {
            first
        } else {
            rest
        }
    }
}

/// The index of the member named `name`, taking the latest added member
/// when names repeat (last write wins), or `None` when no member has the
/// name.
pub open spec fn find_member(ms: Seq<Member>, name: Seq<char>) -> Option<int>
    decreases ms,
{
    if ms.len() == 0 {
        None
    } else if ms[ms.len() - 1].name@ == name {
        Some(ms.len() - 1)
    } else {
        find_member(ms.drop_last(), name)
    }
}

/// Layout never moves backwards: the running size only grows.
pub proof fn lemma_members_end_grows(ms: Seq<Member>, cur: nat)
    requires
        members_wf(ms, cur),
    ensures
        cur <= members_end(ms, cur),
    decreases ms,
{
    if ms.len() > 0 {
        let m = ms[0];
        if (*m.class).spec_align() > 0 {
            lemma_align_up(cur, (*m.class).spec_align());
        }
        lemma_members_end_grows(ms.drop_first(), (m.offset + (*m.class).spec_size()) as nat);
    }
}

/// Every member lies at or after the starting size and ends within the
/// final running size.
pub proof fn lemma_member_bounds(ms: Seq<Member>, cur: nat, i: int)
    requires
        members_wf(ms, cur),
        0 <= i < ms.len(),
    ensures
        cur <= ms[i].offset,
        ms[i].offset + (*ms[i].class).spec_size() <= members_end(ms, cur),
        (*ms[i].class).wf(),
    decreases ms,
{
    let m = ms[0];
    let next = (m.offset + (*m.class).spec_size()) as nat;
    if (*m.class).spec_align() > 0 {
        lemma_align_up(cur, (*m.class).spec_align());
    }
    if i == 0 {
        lemma_members_end_grows(ms.drop_first(), next);
    } else {
        lemma_member_bounds(ms.drop_first(), next, i - 1);
    }
}

/// Members at distinct indices occupy disjoint byte ranges: the earlier
/// one ends at or before the later one begins.
pub proof fn lemma_members_disjoint(ms: Seq<Member>, cur: nat, i: int, j: int)
    requires
        members_wf(ms, cur),
        0 <= i < j < ms.len(),
    ensures
        ms[i].offset + (*ms[i].class).spec_size() <= ms[j].offset,
    decreases ms,
{
    let m = ms[0];
    let next = (m.offset + (*m.class).spec_size()) as nat;
    if i == 0 {
        lemma_member_bounds(ms.drop_first(), next, j - 1);
    } else {
        lemma_members_disjoint(ms.drop_first(), next, i - 1, j - 1);
    }
}

/// Appending a member whose offset is the alignment rounding of the
/// current end keeps the layout consistent and moves the end just past
/// the new member.
pub proof fn lemma_members_push(ms: Seq<Member>, cur: nat, m: Member)
    requires
        members_wf(ms, cur),
        (*m.class).wf(),
        m.offset == spec_align_up(members_end(ms, cur), (*m.class).spec_align()),
    ensures
        members_wf(ms.push(m), cur),
        members_end(ms.push(m), cur) == m.offset + (*m.class).spec_size(),
    decreases ms,
{
    assert(ms.push(m)[ms.len() as int] == m);
    let tail = (m.offset + (*m.class).spec_size()) as nat;
    if ms.len() == 0 {
        assert(ms.push(m)[0] == m);
        assert(ms.push(m).drop_first() =~= Seq::<Member>::empty());
        assert(members_end(ms, cur) == cur);
        assert(members_wf(Seq::<Member>::empty(), tail));
        assert(members_wf(ms.push(m), cur));
        assert(members_end(Seq::<Member>::empty(), tail) == tail);
        assert(members_end(ms.push(m), cur) == tail);
    } else {
        assert(ms.push(m)[0] == ms[0]);
        let m0 = ms[0];
        let next = (m0.offset + (*m0.class).spec_size()) as nat;
        lemma_members_push(ms.drop_first(), next, m);
        assert(ms.push(m).drop_first() =~= ms.drop_first().push(m));
        assert(members_wf(ms.push(m).drop_first(), next));
        assert(members_wf(ms.push(m), cur));
        assert(members_end(ms, cur) == members_end(ms.drop_first(), next));
        assert(members_end(ms.push(m), cur) == members_end(ms.drop_first().push(m), next));
    }
}

/// Appending a member raises the running alignment to at least the
/// member's, keeping all earlier contributions.
pub proof fn lemma_members_align_push(ms: Seq<Member>, m: Member)
    ensures
        members_align(ms.push(m)) == if (*m.class).spec_align() > members_align(ms) {
            (*m.class).spec_align()
        } else {
            members_align(ms)
        },
    decreases ms,
{
    assert(ms.push(m)[ms.len() as int] == m);
    if ms.len() == 0 {
        assert(ms.push(m)[0] == m);
        assert(ms.push(m).drop_first() =~= Seq::<Member>::empty());
        assert(members_align(Seq::<Member>::empty()) == 1);
        assert(members_align(ms.push(m)) == if (*m.class).spec_align() > 1 {
            (*m.class).spec_align()
        } else {
            1nat
        });
        assert(members_align(ms) == 1);
    } else {
        assert(ms.push(m)[0] == ms[0]);
        lemma_members_align_push(ms.drop_first(), m);
        assert(ms.push(m).drop_first() =~= ms.drop_first().push(m));
        assert(members_align(ms.push(m).drop_first()) == members_align(ms.drop_first().push(m)));
    }
}

impl Object {
    /// The identity assigned when the object was frozen.
    pub closed spec fn spec_id(&self) -> Id {
        self.id
    }

    /// The member layout, in declaration order.
    pub closed spec fn spec_members(&self) -> Seq<Member> {
        self.members@
    }

    /// The total size in bytes: the running end of the last member.
    pub closed spec fn spec_size(&self) -> nat {
        self.size as nat
    }

    /// The aggregate's name.
    pub closed spec fn spec_name(&self) -> Seq<char> {
        self.name@
    }

    /// The base this object was inherited from, if any.
    pub closed spec fn spec_base(&self) -> Option<Arc<Object>> {
        self.base
    }

    /// The byte alignment of the aggregate: the largest member alignment,
    /// or 1 when there are no members.
    pub open spec fn spec_align(&self) -> nat
        decreases self,
    {
        members_align(self.spec_members())
    }

    /// An aggregate is consistent when its members are laid out by
    /// sequential alignment padding from zero and its size is the running
    /// end of that layout.
    pub open spec fn wf(&self) -> bool
        decreases self,
    {
        &&& members_wf(self.spec_members(), 0)
        &&& self.spec_size() == members_end(self.spec_members(), 0)
    }

    /// Freezes a builder into an immutable aggregate with a fresh
    /// identity.
    pub fn new(builder: Builder, source: &mut IdSource) -> (o: Object)
        requires
            old(source).spec_next() < u64::MAX,
        ensures
            o.spec_members() == builder.spec_members(),
            o.spec_size() == builder.spec_size(),
            o.spec_name() == builder.spec_name(),
            o.spec_base() == builder.spec_base(),
            o.spec_id().spec_value() == old(source).spec_next(),
            final(source).spec_next() == old(source).spec_next() + 1,
            builder.wf() ==> o.wf(),
    {
        Object {
            id: Id::new(source),
            name: builder.name,
            base: builder.base,
            members: builder.members,
            size: builder.size,
        }
    }

    /// The stored size.
    pub fn size(&self) -> (s: usize)
        ensures
            s == self.spec_size(),
    {
        self.size
    }

    /// The identity of this aggregate class.
    pub fn id(&self) -> (i: Id)
        ensures
            i == self.spec_id(),
    {
        self.id
    }

    /// Resolves a member name to its class and offset; fails with
    /// `AttributeError` exactly when no member has the name. When names
    /// repeat, the latest added member wins.
    pub fn attr(&self, name: &str) -> (r: Result<Slot, Error>)
        requires
            self.wf(),
        ensures
            r is Ok <==> find_member(self.spec_members(), name@) is Some,
            r matches Ok(slot) ==> {
                &&& find_member(self.spec_members(), name@) matches Some(i) && slot.class
                    == self.spec_members()[i].class && slot.offset == self.spec_members()[i].offset
                &&& (*slot.class).wf()
                &&& slot.offset + (*slot.class).spec_size() <= self.spec_size()
            },
            r matches Err(e) ==> e == Error::AttributeError,
    {
        let owned: String = name.to_owned();
        let mut i = self.members.len();
        proof {
            assert(self.spec_members().take(self.members@.len() as int) =~= self.spec_members());
        }
        while i > 0
            invariant
                self.wf(),
                i <= self.members@.len(),
                owned@ == name@,
                find_member(self.spec_members(), name@) == find_member(
                    self.spec_members().take(i as int),
                    name@,
                ),
            decreases i,
        {
            i = i - 1;
            if self.members[i].name == owned {
                let slot = Slot {
                    class: arc_clone(&self.members[i].class),
                    offset: self.members[i].offset,
                };
                proof {
                    assert(self.spec_members().take(i + 1).drop_last() =~= self.spec_members().take(
                        i as int,
                    ));
                    assert(find_member(self.spec_members(), name@) == Some(i as int));
                    lemma_member_bounds(self.spec_members(), 0, i as int);
                }
                return Ok(slot);
            }
            proof {
                assert(self.spec_members().take(i + 1).drop_last() =~= self.spec_members().take(
                    i as int,
                ));
            }
        }
        proof {
            assert(self.spec_members().take(0) =~= Seq::empty());
        }
        Err(Error::AttributeError)
    }

    /// An aggregate supports no index access: always `TypeError`.
    pub fn item(&self, _index: usize) -> (r: Result<Slot, Error>)
        ensures
            r matches Err(e) && e == Error::TypeError,
    {
        Err(Error::TypeError)
    }

    /// The largest member alignment, or 1 for an empty aggregate.
    pub fn align(&self) -> (a: usize)
        ensures
            a == self.spec_align(),
            is_valid_align(a as nat),
        decreases self,
    {
        let mut a: usize = 1;
        let mut i: usize = 0;
        proof {
            assert(self.spec_members().take(0) =~= Seq::empty());
        }
        while i < self.members.len()
            invariant
                i <= self.members@.len(),
                a == members_align(self.spec_members().take(i as int)),
                is_valid_align(a as nat),
            decreases self.members@.len() - i,
        {
            let member_align = self.members[i].class.align();
            if member_align > a {
                a = member_align;
            }
            proof {
                lemma_members_align_push_take(self.spec_members(), i as int);
            }
            i = i + 1;
        }
        proof {
            assert(self.spec_members().take(self.members@.len() as int) =~= self.spec_members());
        }
        a
    }
}

/// Extending a prefix of a member sequence by one member extends its
/// running alignment as `members_align` of the longer prefix.
proof fn lemma_members_align_push_take(ms: Seq<Member>, i: int)
    requires
        0 <= i < ms.len(),
    ensures
        members_align(ms.take(i + 1)) == if (*ms[i].class).spec_align() > members_align(
            ms.take(i),
        ) {
            (*ms[i].class).spec_align()
        } else {
            members_align(ms.take(i))
        },
{
    assert(ms.take(i + 1).drop_last() =~= ms.take(i));
    lemma_members_align_push(ms.take(i), ms[i]);
    assert(ms.take(i).push(ms[i]) =~= ms.take(i + 1));
}

impl Builder {
    /// The members accumulated so far, in order.
    pub closed spec fn spec_members(&self) -> Seq<Member> {
        self.members@
    }

    /// The running size accumulated so far.
    pub closed spec fn spec_size(&self) -> nat {
        self.size as nat
    }

    /// The name the frozen aggregate will carry.
    pub closed spec fn spec_name(&self) -> Seq<char> {
        self.name@
    }

    /// The base recorded by [`Builder::new_inherit`], if any.
    pub closed spec fn spec_base(&self) -> Option<Arc<Object>> {
        self.base
    }

    /// A builder is consistent when its members are laid out by
    /// sequential alignment padding from zero and `size` is the running
    /// end of that layout.
    pub open spec fn wf(&self) -> bool {
        &&& members_wf(self.spec_members(), 0)
        &&& self.spec_size() == members_end(self.spec_members(), 0)
    }

    /// An empty builder for an aggregate with the given name.
    pub fn new(name: String) -> (b: Builder)
        ensures
            b.spec_members() == Seq::<Member>::empty(),
            b.spec_size() == 0,
            b.spec_name() == name@,
            b.spec_base() is None,
            b.wf(),
    {
        Builder { name, base: None, members: Vec::new(), size: 0 }
    }

    /// Seeds a builder with a clone of a base aggregate's full member
    /// layout, recording the base; members added afterwards are appended
    /// after all inherited ones.
    pub fn new_inherit(name: String, base: Arc<Object>) -> (b: Builder)
        ensures
            b.spec_members() == (*base).spec_members(),
            b.spec_size() == (*base).spec_size(),
            b.spec_name() == name@,
            b.spec_base() == Some(base),
            (*base).wf() ==> b.wf(),
    {
        Builder { name, members: clone_members(&base.members), size: base.size, base: Some(base) }
    }

    /// Appends a member: its offset is the current size rounded up to the
    /// member class's alignment, and the size advances to the member's
    /// end. A repeated name shadows the earlier member (last write wins).
    pub fn add(&mut self, name: String, class: Arc<Class>)
        requires
            old(self).wf(),
            (*class).wf(),
            spec_align_up(old(self).spec_size(), (*class).spec_align()) + (*class).spec_size()
                <= usize::MAX,
        ensures
            final(self).wf(),
            ({
                let offset = spec_align_up(old(self).spec_size(), (*class).spec_align());
                &&& final(self).spec_members() == old(self).spec_members().push(
                    (Member { name, class, offset: offset as usize }),
                )
                &&& final(self).spec_size() == offset + (*class).spec_size()
            }),
            final(self).spec_name() == old(self).spec_name(),
            final(self).spec_base() == old(self).spec_base(),
    {
        proof {
            let ghost c: Class = *class;
            crate::class::lemma_class_align_valid(c);
        }
        let class_align = class.align();
        let class_size = class.size();
        let offset = align(self.size, class_align);
        self.size = offset + class_size;
        let ghost old_members = self.members@;
        self.members.push(Member { name, class, offset });
        proof {
            lemma_members_push(old_members, 0, self.members@.last());
            assert(self.members@ =~= old_members.push(self.members@.last()));
            lemma_members_end_grows(old_members, 0);
        }
    }
}

/// Distinct members of a consistent aggregate occupy disjoint byte
/// ranges, so a write through one member's reference never changes the
/// bytes of another.
pub proof fn lemma_object_members_disjoint(o: &Object, i: int, j: int)
    requires
        o.wf(),
        0 <= i < o.spec_members().len(),
        0 <= j < o.spec_members().len(),
        i != j,
    ensures
        ({
            let mi = o.spec_members()[i];
            let mj = o.spec_members()[j];
            mi.offset + (*mi.class).spec_size() <= mj.offset || mj.offset + (*mj.class).spec_size()
                <= mi.offset
        }),
{
    if i < j {
        lemma_members_disjoint(o.spec_members(), 0, i, j);
    } else {
        lemma_members_disjoint(o.spec_members(), 0, j, i);
    }
}

/// An aggregate's alignment is a valid one.
pub proof fn lemma_object_align_valid(o: Object)
    ensures
        is_valid_align(o.spec_align()),
    decreases o,
{
    lemma_members_align_valid(o.spec_members());
}

/// The running maximum of member alignments is itself a valid alignment.
pub proof fn lemma_members_align_valid(ms: Seq<Member>)
    ensures
        is_valid_align(members_align(ms)),
    decreases ms,
{
    if ms.len() > 0 {
        lemma_members_align_valid(ms.drop_first());
        let ghost c: Class = *ms[0].class;
        crate::class::lemma_class_align_valid(c);
    }
}

/// Deep-copies a member list, preserving every member exactly.
fn clone_members(members: &Vec<Member>) -> (r: Vec<Member>)
    ensures
        r@ == members@,
    decreases members,
{
    let mut r: Vec<Member> = Vec::new();
    let mut i: usize = 0;
    while i < members.len()
        invariant
            i <= members@.len(),
            r@ =~= members@.take(i as int),
        decreases members@.len() - i,
    {
        r.push(members[i].clone());
        proof {
            assert(r@ =~= members@.take(i + 1));
        }
        i = i + 1;
    }
    proof {
        assert(members@.take(members@.len() as int) =~= members@);
    }
    r
}

impl Clone for Member {
    /// A member clones to an equal member: the name is copied and the
    /// class handle is shared.
    fn clone(&self) -> (r: Self)
        ensures
            r == *self,
    {
        Member { name: self.name.clone(), class: arc_clone(&self.class), offset: self.offset }
    }
}


} // verus!
