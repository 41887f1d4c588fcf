use crate::class::id::{Id, IdSource};
use crate::class::lens::Slot;
use crate::error::Error;
use vstd::arithmetic::div_mod::{lemma_fundamental_div_mod, lemma_mod_division_less_than_divisor};
use vstd::prelude::*;

verus! {

/// A leaf class: one scalar type, identified by its tag. Size and
/// alignment are the scalar's width; a leaf resolves no attributes or
/// indices.
#[derive(Clone, Copy)]
pub struct ValueClass {
    id: Id,
    tag: TypeTag,
}

impl ValueClass {
    /// The identity assigned at construction.
    pub closed spec fn spec_id(&self) -> Id {
        self.id
    }

    /// The type-identity tag of the wrapped scalar type.
    pub closed spec fn spec_tag(&self) -> TypeTag {
        self.tag
    }

    /// Builds a leaf class for the scalar type `tag`, assigning a fresh
    /// identity.
    pub fn new(tag: TypeTag, source: &mut IdSource) -> (c: ValueClass)
        requires
            old(source).spec_next() < u64::MAX,
        ensures
            c.spec_tag() == tag,
            c.spec_id().spec_value() == old(source).spec_next(),
            final(source).spec_next() == old(source).spec_next() + 1,
    {
        ValueClass { id: Id::new(source), tag }
    }

    /// The identity of this leaf class.
    pub fn id(&self) -> (i: Id)
        ensures
            i == self.spec_id(),
    {
        self.id
    }

    /// The type-identity tag of this leaf class.
    pub fn tag(&self) -> (t: TypeTag)
        ensures
            t == self.spec_tag(),
    {
        self.tag
    }

    /// A leaf supports no attribute access: always `TypeError`.
    pub fn attr(&self, _name: &str) -> (r: Result<Slot, Error>)
        ensures
            r matches Err(e) && e == Error::TypeError,
    {
        Err(Error::TypeError)
    }

    /// A leaf supports no index access: always `TypeError`.
    pub fn item(&self, _index: usize) -> (r: Result<Slot, Error>)
        ensures
            r matches Err(e) && e == Error::TypeError,
    {
        Err(Error::TypeError)
    }
}

/// The type-identity tag carried by leaf (value) classes. Casting checks
/// this tag at runtime; aggregates carry no tag at all.
#[derive(Clone, Copy, Debug, PartialEq, Eq, Structural)]
pub enum TypeTag {
    Bool,
    U8,
    U16,
    U32,
    U64,
    I8,
    I16,
    I32,
    I64,
}

/// A runtime scalar value, the currency of reads and writes through
/// guards and references. Each variant corresponds to one `TypeTag`.
#[derive(Clone, Copy, Debug, PartialEq, Eq, Structural)]
pub enum Value {
    Bool(bool),
    U8(u8),
    U16(u16),
    U32(u32),
    U64(u64),
    I8(i8),
    I16(i16),
    I32(i32),
    I64(i64),
}

/// Number of bytes a scalar of the given tag occupies.
pub open spec fn width(tag: TypeTag) -> nat {
    match tag {
        TypeTag::Bool => 1,
        TypeTag::U8 => 1,
        TypeTag::U16 => 2,
        TypeTag::U32 => 4,
        TypeTag::U64 => 8,
        TypeTag::I8 => 1,
        TypeTag::I16 => 2,
        TypeTag::I32 => 4,
        TypeTag::I64 => 8,
    }
}

/// Executable twin of [`width`].
pub fn width_of(tag: TypeTag) -> (w: usize)
    ensures
        w == width(tag),
{
    match tag {
        TypeTag::Bool => 1,
        TypeTag::U8 => 1,
        TypeTag::U16 => 2,
        TypeTag::U32 => 4,
        TypeTag::U64 => 8,
        TypeTag::I8 => 1,
        TypeTag::I16 => 2,
        TypeTag::I32 => 4,
        TypeTag::I64 => 8,
    }
}

/// The default scalar of a tag: numeric zero, or `false`.
pub open spec fn default_value(tag: TypeTag) -> Value {
    match tag {
        TypeTag::Bool => Value::Bool(false),
        TypeTag::U8 => Value::U8(0),
        TypeTag::U16 => Value::U16(0),
        TypeTag::U32 => Value::U32(0),
        TypeTag::U64 => Value::U64(0),
        TypeTag::I8 => Value::I8(0),
        TypeTag::I16 => Value::I16(0),
        TypeTag::I32 => Value::I32(0),
        TypeTag::I64 => Value::I64(0),
    }
}

/// Executable twin of [`default_value`].
pub fn default_of(tag: TypeTag) -> (v: Value)
    ensures
        v == default_value(tag),
{
    match tag {
        TypeTag::Bool => Value::Bool(false),
        TypeTag::U8 => Value::U8(0),
        TypeTag::U16 => Value::U16(0),
        TypeTag::U32 => Value::U32(0),
        TypeTag::U64 => Value::U64(0),
        TypeTag::I8 => Value::I8(0),
        TypeTag::I16 => Value::I16(0),
        TypeTag::I32 => Value::I32(0),
        TypeTag::I64 => Value::I64(0),
    }
}

impl Value {
    /// The tag a scalar belongs to.
    pub open spec fn tag(&self) -> TypeTag {
        match self {
            Value::Bool(_) => TypeTag::Bool,
            Value::U8(_) => TypeTag::U8,
            Value::U16(_) => TypeTag::U16,
            Value::U32(_) => TypeTag::U32,
            Value::U64(_) => TypeTag::U64,
            Value::I8(_) => TypeTag::I8,
            Value::I16(_) => TypeTag::I16,
            Value::I32(_) => TypeTag::I32,
            Value::I64(_) => TypeTag::I64,
        }
    }

    /// Executable twin of [`Value::tag`].
    pub fn tag_of(&self) -> (tag: TypeTag)
        ensures
            tag == self.tag(),
    {
        match self {
            Value::Bool(_) => TypeTag::Bool,
            Value::U8(_) => TypeTag::U8,
            Value::U16(_) => TypeTag::U16,
            Value::U32(_) => TypeTag::U32,
            Value::U64(_) => TypeTag::U64,
            Value::I8(_) => TypeTag::I8,
            Value::I16(_) => TypeTag::I16,
            Value::I32(_) => TypeTag::I32,
            Value::I64(_) => TypeTag::I64,
        }
    }
}

/// 256 raised to `w`: the number of distinct byte strings of length `w`.
pub open spec fn pow256(w: nat) -> nat
    decreases w,
{
    if w == 0 {
        1
    } else {
        256 * pow256((w - 1) as nat)
    }
}

/// The unsigned image of a scalar within its width: unsigned values map to
/// themselves, signed values to their two's complement representative, and
/// booleans to 0 or 1.
pub open spec fn unsigned_of(v: Value) -> nat {
    match v {
        Value::Bool(b) => if b {
            1
        } else {
            0
        },
        Value::U8(x) => x as nat,
        Value::U16(x) => x as nat,
        Value::U32(x) => x as nat,
        Value::U64(x) => x as nat,
        Value::I8(x) => if x >= 0 {
            x as nat
        } else {
            (x + 0x100) as nat
        },
        Value::I16(x) => if x >= 0 {
            x as nat
        } else {
            (x + 0x1_0000) as nat
        },
        Value::I32(x) => if x >= 0 {
            x as nat
        } else {
            (x + 0x1_0000_0000) as nat
        },
        Value::I64(x) => if x >= 0 {
            x as nat
        } else {
            (x + 0x1_0000_0000_0000_0000) as nat
        },
    }
}

/// The scalar of tag `tag` whose unsigned image is `n` (for `n` below
/// `pow256(width(tag))`); nonzero bytes decode to `true` for booleans.
pub open spec fn from_unsigned(tag: TypeTag, n: nat) -> Value {
    match tag {
        TypeTag::Bool => Value::Bool(n != 0),
        TypeTag::U8 => Value::U8(n as u8),
        TypeTag::U16 => Value::U16(n as u16),
        TypeTag::U32 => Value::U32(n as u32),
        TypeTag::U64 => Value::U64(n as u64),
        TypeTag::I8 => Value::I8(
            (if n < 0x80 {
                n as int
            } else {
                n - 0x100
            }) as i8,
        ),
        TypeTag::I16 => Value::I16(
            (if n < 0x8000 {
                n as int
            } else {
                n - 0x1_0000
            }) as i16,
        ),
        TypeTag::I32 => Value::I32(
            (if n < 0x8000_0000 {
                n as int
            } else {
                n - 0x1_0000_0000
            }) as i32,
        ),
        TypeTag::I64 => Value::I64(
            (if n < 0x8000_0000_0000_0000 {
                n as int
            } else {
                n - 0x1_0000_0000_0000_0000
            }) as i64,
        ),
    }
}

/// Little-endian byte string of length `w` for the number `n` (mod 256^w).
pub open spec fn le_bytes(n: nat, w: nat) -> Seq<u8>
    decreases w,
{
    if w == 0 {
        Seq::empty()
    } else {
        seq![(n % 256) as u8] + le_bytes(n / 256, (w - 1) as nat)
    }
}

/// The number a little-endian byte string denotes.
pub open spec fn le_nat(bs: Seq<u8>) -> nat
    decreases bs.len(),
{
    if bs.len() == 0 {
        0
    } else {
        (bs[0] + 256 * le_nat(bs.drop_first())) as nat
    }
}

/// The byte string a scalar is stored as.
pub open spec fn encode(v: Value) -> Seq<u8> {
    le_bytes(unsigned_of(v), width(v.tag()))
}

/// The scalar of tag `tag` stored in the byte string `bs` (of length
/// `width(tag)`).
pub open spec fn decode(tag: TypeTag, bs: Seq<u8>) -> Value {
    from_unsigned(tag, le_nat(bs))
}

/// A little-endian byte string of length `w` denotes a number below 256^w.
pub proof fn lemma_le_nat_bound(bs: Seq<u8>)
    ensures
        le_nat(bs) < pow256(bs.len()),
    decreases bs.len(),
{
    if bs.len() > 0 {
        lemma_le_nat_bound(bs.drop_first());
    }
}

/// `le_bytes` always produces exactly `w` bytes.
pub proof fn lemma_le_bytes_len(n: nat, w: nat)
    ensures
        le_bytes(n, w).len() == w,
    decreases w,
{
    if w > 0 {
        lemma_le_bytes_len(n / 256, (w - 1) as nat);
    }
}

/// Reading back the little-endian encoding of `n < 256^w` yields `n`.
pub proof fn lemma_le_nat_le_bytes(n: nat, w: nat)
    requires
        n < pow256(w),
    ensures
        le_nat(le_bytes(n, w)) == n,
    decreases w,
{
    if w > 0 {
        lemma_fundamental_div_mod(n as int, 256);
        lemma_mod_division_less_than_divisor(n as int, 256);
        assert(n / 256 < pow256((w - 1) as nat)) by {
            assert(n < 256 * pow256((w - 1) as nat));
            assert(256 * (n / 256) <= n) by {
                lemma_fundamental_div_mod(n as int, 256);
            };
        };
        lemma_le_nat_le_bytes(n / 256, (w - 1) as nat);
        lemma_le_bytes_len(n / 256, (w - 1) as nat);
        assert(le_bytes(n, w).drop_first() =~= le_bytes(n / 256, (w - 1) as nat));
    }
}

/// The unsigned image of a scalar fits in its width.
pub proof fn lemma_unsigned_of_bound(v: Value)
    ensures
        unsigned_of(v) < pow256(width(v.tag())),
{
    reveal_with_fuel(pow256, 9);
}

/// Decoding is left inverse to encoding: a stored scalar reads back as
/// itself.
pub proof fn lemma_decode_encode(v: Value)
    ensures
        decode(v.tag(), encode(v)) == v,
{
    lemma_unsigned_of_bound(v);
    lemma_le_nat_le_bytes(unsigned_of(v), width(v.tag()));
    reveal_with_fuel(pow256, 9);
}

/// A string of zero bytes decodes to the tag's default scalar.
pub proof fn lemma_decode_zeros(tag: TypeTag, bs: Seq<u8>)
    requires
        bs.len() == width(tag),
        forall|i: int| 0 <= i < bs.len() ==> bs[i] == 0u8,
    ensures
        decode(tag, bs) == default_value(tag),
{
    lemma_le_nat_zeros(bs);
}

/// A string of zero bytes denotes zero.
pub proof fn lemma_le_nat_zeros(bs: Seq<u8>)
    requires
        forall|i: int| 0 <= i < bs.len() ==> bs[i] == 0u8,
    ensures
        le_nat(bs) == 0,
    decreases bs.len(),
{
    if bs.len() > 0 {
        lemma_le_nat_zeros(bs.drop_first());
    }
}

/// A freshly constructed buffer reads the default scalar at every leaf
/// position: construction zeroes the whole buffer, and any range of
/// zeros decodes to its tag's default.
pub proof fn lemma_construct_reads_default(bs: Seq<u8>, off: int, tag: TypeTag)
    requires
        forall|i: int| 0 <= i < bs.len() ==> bs[i] == 0u8,
        0 <= off,
        off + width(tag) <= bs.len(),
    ensures
        decode(tag, bs.subrange(off, off + width(tag) as int)) == default_value(tag),
{
    let sub = bs.subrange(off, off + width(tag) as int);
    assert(forall|i: int| 0 <= i < sub.len() ==> sub[i] == 0u8);
    lemma_decode_zeros(tag, sub);
}

/// Round trip through memory: after a write of `v` lands its encoding at
/// `off`, reading the same range back yields exactly `v`.
pub proof fn lemma_write_then_read(bs: Seq<u8>, off: int, v: Value)
    requires
        0 <= off,
        off + width(v.tag()) <= bs.len(),
        bs.subrange(off, off + width(v.tag()) as int) == encode(v),
    ensures
        decode(v.tag(), bs.subrange(off, off + width(v.tag()) as int)) == v,
{
    lemma_decode_encode(v);
}

/// Frame rule: a write that changes only the bytes of one range leaves
/// the contents of any disjoint range exactly as they were.
pub proof fn lemma_disjoint_range_preserved(
    bs0: Seq<u8>,
    bs1: Seq<u8>,
    off: int,
    w: nat,
    off2: int,
    w2: nat,
)
    requires
        bs1.len() == bs0.len(),
        0 <= off && off + w <= bs0.len(),
        0 <= off2 && off2 + w2 <= bs0.len(),
        off + w <= off2 || off2 + w2 <= off,
        forall|i: int| 0 <= i < bs0.len() && !(off <= i < off + w) ==> bs1[i] == bs0[i],
    ensures
        bs1.subrange(off2, off2 + w2) == bs0.subrange(off2, off2 + w2),
{
    assert(bs1.subrange(off2, off2 + w2) =~= bs0.subrange(off2, off2 + w2));
}

/// Executable twin of [`unsigned_of`].
fn to_unsigned(v: Value) -> (n: u64)
    ensures
        n == unsigned_of(v),
{
    match v {
        Value::Bool(b) => if b {
            1
        } else {
            0
        },
        Value::U8(x) => x as u64,
        Value::U16(x) => x as u64,
        Value::U32(x) => x as u64,
        Value::U64(x) => x,
        Value::I8(x) => if x >= 0 {
            x as u64
        } else {
            ((x as i64) + 0x100) as u64
        },
        Value::I16(x) => if x >= 0 {
            x as u64
        } else {
            ((x as i64) + 0x1_0000) as u64
        },
        Value::I32(x) => if x >= 0 {
            x as u64
        } else {
            ((x as i64) + 0x1_0000_0000) as u64
        },
        Value::I64(x) => if x >= 0 {
            x as u64
        } else {
            (((x as i128) + 0x1_0000_0000_0000_0000_i128)) as u64
        },
    }
}

/// Executable twin of [`from_unsigned`].
fn of_unsigned(tag: TypeTag, n: u64) -> (v: Value)
    requires
        n < pow256(width(tag)),
    ensures
        v == from_unsigned(tag, n as nat),
{
    proof {
        reveal_with_fuel(pow256, 9);
    }
    match tag {
        TypeTag::Bool => Value::Bool(n != 0),
        TypeTag::U8 => Value::U8(n as u8),
        TypeTag::U16 => Value::U16(n as u16),
        TypeTag::U32 => Value::U32(n as u32),
        TypeTag::U64 => Value::U64(n),
        TypeTag::I8 => Value::I8(
            if n < 0x80 {
                n as i8
            } else {
                ((n as i64) - 0x100) as i8
            },
        ),
        TypeTag::I16 => Value::I16(
            if n < 0x8000 {
                n as i16
            } else {
                ((n as i64) - 0x1_0000) as i16
            },
        ),
        TypeTag::I32 => Value::I32(
            if n < 0x8000_0000 {
                n as i32
            } else {
                ((n as i64) - 0x1_0000_0000) as i32
            },
        ),
        TypeTag::I64 => Value::I64(
            if n < 0x8000_0000_0000_0000 {
                n as i64
            } else {
                (((n as i128) - 0x1_0000_0000_0000_0000_i128)) as i64
            },
        ),
    }
}

/// Reads `w <= 8` bytes at `offset` as a little-endian number.
fn read_le(buf: &Vec<u8>, offset: usize, w: usize) -> (n: u64)
    requires
        offset + w <= buf@.len(),
        w <= 8,
    ensures
        n == le_nat(buf@.subrange(offset as int, offset + w)),
    decreases w,
{
    let total = buf.len();
    if w == 0 {
        assert(buf@.subrange(offset as int, offset as int) =~= Seq::empty());
        0
    } else {
        let rest = read_le(buf, offset + 1, w - 1);
        proof {
            let tail = buf@.subrange(offset + 1, offset + w);
            lemma_le_nat_bound(tail);
            assert(pow256(tail.len()) <= pow256(7)) by {
                lemma_pow256_increases(tail.len(), 7);
            };
            reveal_with_fuel(pow256, 8);
            assert(buf@.subrange(offset as int, offset + w).drop_first() =~= tail);
        }
        buf[offset] as u64 + 256 * rest
    }
}

/// 256^a <= 256^b when a <= b.
proof fn lemma_pow256_increases(a: nat, b: nat)
    requires
        a <= b,
    ensures
        pow256(a) <= pow256(b),
    decreases b,
{
    if a < b {
        lemma_pow256_increases(a, (b - 1) as nat);
        assert(pow256((b - 1) as nat) <= 256 * pow256((b - 1) as nat));
    }
}

/// Writes the `w`-byte little-endian encoding of `n` at `offset`, leaving
/// every other byte unchanged.
fn write_le(buf: &mut Vec<u8>, offset: usize, n: u64, w: usize)
    requires
        offset + w <= old(buf)@.len(),
        w <= 8,
    ensures
        final(buf)@.len() == old(buf)@.len(),
        final(buf)@.subrange(offset as int, offset + w) == le_bytes(n as nat, w as nat),
        forall|i: int|
            0 <= i < old(buf)@.len() && !(offset <= i < offset + w) ==> final(buf)@[i] == old(buf)@[i],
    decreases w,
{
    let total = buf.len();
    if w > 0 {
        let byte: u8 = (n % 256) as u8;
        buf[offset] = byte;
        write_le(buf, offset + 1, n / 256, w - 1);
        proof {
            lemma_le_bytes_len((n / 256) as nat, (w - 1) as nat);
            assert((n as nat) / 256 == (n / 256) as nat);
            assert((n as nat) % 256 == (n % 256) as nat);
            assert(final(buf)@.subrange(offset as int, offset + w) =~= seq![byte] + final(buf)@.subrange(offset + 1, offset + w));
        }
    } else {
        assert(final(buf)@.subrange(offset as int, offset as int) =~= Seq::empty());
    }
}

/// Reads the scalar of tag `tag` stored at `offset` in `buf`.
pub fn read_value(buf: &Vec<u8>, offset: usize, tag: TypeTag) -> (v: Value)
    requires
        offset + width(tag) <= buf@.len(),
    ensures
        v == decode(tag, buf@.subrange(offset as int, offset + width(tag))),
{
    let w = width_of(tag);
    let n = read_le(buf, offset, w);
    proof {
        lemma_le_nat_bound(buf@.subrange(offset as int, offset + width(tag)));
    }
    of_unsigned(tag, n)
}

/// Stores the scalar `v` at `offset` in `buf`, leaving every byte outside
/// its width unchanged.
pub fn write_value(buf: &mut Vec<u8>, offset: usize, v: Value)
    requires
        offset + width(v.tag()) <= old(buf)@.len(),
    ensures
        final(buf)@.len() == old(buf)@.len(),
        final(buf)@.subrange(offset as int, offset + width(v.tag())) == encode(v),
        forall|i: int|
            0 <= i < old(buf)@.len() && !(offset <= i < offset + width(v.tag())) ==> final(buf)@[i] == old(buf)@[i],
{
    let n = to_unsigned(v);
    let w = width_of(v.tag_of());
    write_le(buf, offset, n, w);
}

} // verus!
