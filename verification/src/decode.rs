//! Reading numbers out of the bytes that a driver wrote.
//!
//! A driver answers a query by writing the value into the caller's buffer as
//! it lies in memory. What number a run of bytes spells therefore depends on
//! the byte order of the machine, which every function here takes as an
//! argument, and on the width of the type, which the standard fixes.

use crate::types::{
    cl_name_version, cl_uint, cl_ulong, cl_version, intptr_t, name_version_views, size_t,
};
use vstd::prelude::*;
use vstd::slice::{slice_subrange, slice_to_vec};

verus! {

/// The order in which a machine keeps the bytes of a number.
#[derive(Clone, Copy, Debug, PartialEq, Eq, Structural)]
pub enum ByteOrder {
    /// Least significant byte first.
    Little,
    /// Most significant byte first.
    Big,
}

/// 256 to the power `n`: how many values `n` bytes can spell.
pub open spec fn radix(n: nat) -> nat
    decreases n,
{
    if n == 0 {
        1
    } else {
        256 * radix((n - 1) as nat)
    }
}

/// The number that `s` spells with its least significant byte first.
pub open spec fn le_value(s: Seq<u8>) -> nat
    decreases s.len(),
{
    if s.len() == 0 {
        0
    } else {
        s[0] as nat + 256 * le_value(s.drop_first())
    }
}

/// The number that `s` spells with its most significant byte first.
pub open spec fn be_value(s: Seq<u8>) -> nat
    decreases s.len(),
{
    if s.len() == 0 {
        0
    } else {
        256 * be_value(s.drop_last()) + s.last() as nat
    }
}

/// The signed number that the unsigned `v` stands for in two's complement
/// on `n` bytes.
pub open spec fn signed(v: nat, n: nat) -> int {
    if 2 * v < radix(n) {
        v as int
    } else {
        v - radix(n)
    }
}

/// Width in bytes of `size_t` and `intptr_t` on this machine.
pub open spec fn word_width() -> nat {
    (usize::BITS / 8) as nat
}

impl ByteOrder {
    /// The number that `s` spells in this order.
    pub open spec fn value(self, s: Seq<u8>) -> nat {
        match self {
            ByteOrder::Little => le_value(s),
            ByteOrder::Big => be_value(s),
        }
    }

    /// The order in which two bytes spell the number one: least significant
    /// byte first where they are one and then zero, and most significant
    /// byte first otherwise.
    pub open spec fn spec_of_one(bytes: Seq<u8>) -> ByteOrder {
        if le_value(bytes) == 1 {
            ByteOrder::Little
        } else {
            ByteOrder::Big
        }
    }

    /// The byte order of a machine that keeps the number one in memory as
    /// `bytes`. Where the bytes spell one in either order, it is that order.
    pub fn of_one(bytes: [u8; 2]) -> (order: ByteOrder)
        ensures
            order == ByteOrder::spec_of_one(bytes@),
            order == ByteOrder::Little <==> bytes@[0] == 1 && bytes@[1] == 0,
            le_value(bytes@) == 1 || be_value(bytes@) == 1 ==> order.value(bytes@) == 1,
    {
        proof {
            lemma_value_of_two(bytes@);
        }
        if bytes[0] == 1 && bytes[1] == 0 {
            ByteOrder::Little
        } else {
            ByteOrder::Big
        }
    }

    /// The byte order of the machine that runs this code: the order in which
    /// it keeps the number one in memory, see `of_one`. Which order that is
    /// depends on the machine alone.
    pub fn native() -> ByteOrder {
        ByteOrder::of_one(ne_bytes(1))
    }
}

/// What two bytes spell in each order.
pub proof fn lemma_value_of_two(s: Seq<u8>)
    requires
        s.len() == 2,
    ensures
        le_value(s) == s[0] + 256 * s[1],
        be_value(s) == 256 * s[0] + s[1],
{
    reveal_with_fuel(le_value, 3);
    reveal_with_fuel(be_value, 3);
    assert(s.drop_first().len() == 1);
    assert(s.drop_first()[0] == s[1]);
    assert(s.drop_first().drop_first().len() == 0);
    assert(s.drop_last().len() == 1);
    assert(s.drop_last().last() == s[0]);
    assert(s.drop_last().drop_last().len() == 0);
}

/// `u16::to_ne_bytes` of std: the two bytes of `x` as this machine keeps
/// them in memory. Which of the two orders that is depends on the machine,
/// so the contract only claims that it is one of them.
#[verifier::external_body]
fn ne_bytes(x: u16) -> (b: [u8; 2])
    ensures
        le_value(b@) == x || be_value(b@) == x,
{
    x.to_ne_bytes()
}

/// The first powers of 256, written out.
pub proof fn lemma_radix_values()
    ensures
        radix(0) == 1,
        radix(1) == 0x100,
        radix(2) == 0x1_0000,
        radix(3) == 0x100_0000,
        radix(4) == 0x1_0000_0000,
        radix(5) == 0x100_0000_0000,
        radix(6) == 0x1_0000_0000_0000,
        radix(7) == 0x100_0000_0000_0000,
        radix(8) == 0x1_0000_0000_0000_0000,
{
    reveal_with_fuel(radix, 10);
}

/// `n` bytes spell a number below 256 to the power `n`, in either order.
pub proof fn lemma_value_below_radix(order: ByteOrder, s: Seq<u8>)
    ensures
        order.value(s) < radix(s.len()),
    decreases s.len(),
{
    if s.len() > 0 {
        match order {
            ByteOrder::Little => lemma_value_below_radix(order, s.drop_first()),
            ByteOrder::Big => lemma_value_below_radix(order, s.drop_last()),
        }
    }
}

/// Reading a run of bytes backwards in one order is reading it forwards in
/// the other.
pub proof fn lemma_reverse_swaps_order(s: Seq<u8>)
    ensures
        le_value(s.reverse()) == be_value(s),
        be_value(s.reverse()) == le_value(s),
    decreases s.len(),
{
    if s.len() > 0 {
        let r = s.reverse();
        assert(r.drop_first() =~= s.drop_last().reverse());
        assert(r.drop_last() =~= s.drop_first().reverse());
        lemma_reverse_swaps_order(s.drop_last());
        lemma_reverse_swaps_order(s.drop_first());
    }
}

/// Decoding loses nothing: two runs of bytes of one length that spell the
/// same number in one order are the same bytes.
pub proof fn lemma_value_is_injective(order: ByteOrder, a: Seq<u8>, b: Seq<u8>)
    requires
        a.len() == b.len(),
        order.value(a) == order.value(b),
    ensures
        a == b,
    decreases a.len(),
{
    if a.len() > 0 {
        match order {
            ByteOrder::Little => {
                let x = le_value(a.drop_first());
                let y = le_value(b.drop_first());
                assert(a[0] as nat + 256 * x == b[0] as nat + 256 * y);
                assert(x == y && a[0] == b[0]);
                lemma_value_is_injective(order, a.drop_first(), b.drop_first());
                assert(a =~= seq![a[0]] + a.drop_first());
                assert(b =~= seq![b[0]] + b.drop_first());
            },
            ByteOrder::Big => {
                let x = be_value(a.drop_last());
                let y = be_value(b.drop_last());
                assert(256 * x + a.last() as nat == 256 * y + b.last() as nat);
                assert(x == y && a.last() == b.last());
                lemma_value_is_injective(order, a.drop_last(), b.drop_last());
                assert(a =~= a.drop_last().push(a.last()));
                assert(b =~= b.drop_last().push(b.last()));
            },
        }
    } else {
        assert(a =~= b);
    }
}

/// Reads the number that the `width` bytes from `start` on spell.
pub fn read_uint(bytes: &[u8], start: usize, width: usize, order: ByteOrder) -> (v: u64)
    requires
        width <= 8,
        start + width <= bytes@.len(),
    ensures
        v == order.value(bytes@.subrange(start as int, start + width)),
{
    let end: usize = bytes.len();
    let mut acc: u64 = 0;
    match order {
        ByteOrder::Big => {
            let mut i: usize = 0;
            while i < width
                invariant
                    i <= width <= 8,
                    start + width <= bytes@.len() == end,
                    acc == be_value(bytes@.subrange(start as int, start + i)),
                decreases width - i,
            {
                let ghost before = bytes@.subrange(start as int, start + i);
                let ghost after = bytes@.subrange(start as int, start + i + 1);
                proof {
                    lemma_value_below_radix(ByteOrder::Big, before);
                    lemma_radix_values();
                    assert(radix(i as nat) <= radix(7)) by {
                        assert(i == 0 || i == 1 || i == 2 || i == 3 || i == 4 || i == 5 || i == 6
                            || i == 7);
                    }
                    assert(after.drop_last() =~= before);
                }
                acc = acc * 256 + bytes[start + i] as u64;
                i += 1;
            }
        },
        ByteOrder::Little => {
            let mut i: usize = width;
            while i > 0
                invariant
                    i <= width <= 8,
                    start + width <= bytes@.len() == end,
                    acc == le_value(bytes@.subrange(start + i, start + width)),
                decreases i,
            {
                let ghost before = bytes@.subrange(start + i, start + width);
                let ghost after = bytes@.subrange(start + i - 1, start + width);
                proof {
                    lemma_value_below_radix(ByteOrder::Little, before);
                    lemma_radix_values();
                    assert(radix(before.len()) <= radix(7)) by {
                        let n = before.len();
                        assert(n == 0 || n == 1 || n == 2 || n == 3 || n == 4 || n == 5 || n == 6
                            || n == 7);
                    }
                    assert(after.drop_first() =~= before);
                }
                i -= 1;
                acc = acc * 256 + bytes[start + i] as u64;
            }
        },
    }
    acc
}

/// Width in bytes of a `cl_uint`.
pub const UINT_WIDTH: usize = 4;

/// Width in bytes of a `cl_ulong`.
pub const ULONG_WIDTH: usize = 8;

/// Width in bytes of one `cl_name_version` record: the version, then the name.
pub const NAME_VERSION_WIDTH: usize = 68;

/// The `cl_uint` that a buffer holds: it must be exactly as wide as one.
pub open spec fn spec_decode_uint(order: ByteOrder, s: Seq<u8>) -> Option<cl_uint> {
    if s.len() == UINT_WIDTH {
        Some(order.value(s) as cl_uint)
    } else {
        None
    }
}

/// The `cl_ulong` that a buffer holds: it must be exactly as wide as one.
pub open spec fn spec_decode_ulong(order: ByteOrder, s: Seq<u8>) -> Option<cl_ulong> {
    if s.len() == ULONG_WIDTH {
        Some(order.value(s) as cl_ulong)
    } else {
        None
    }
}

/// The `size_t` that a buffer holds: it must be exactly as wide as one.
pub open spec fn spec_decode_size(order: ByteOrder, s: Seq<u8>) -> Option<size_t> {
    if s.len() == word_width() {
        Some(order.value(s) as size_t)
    } else {
        None
    }
}

/// The `intptr_t` that a buffer holds, in two's complement: it must be
/// exactly as wide as one.
pub open spec fn spec_decode_ptr(order: ByteOrder, s: Seq<u8>) -> Option<intptr_t> {
    if s.len() == word_width() {
        Some(signed(order.value(s), word_width()) as intptr_t)
    } else {
        None
    }
}

/// The `i`-th run of `width` bytes of `s`.
pub open spec fn chunk(s: Seq<u8>, width: nat, i: int) -> Seq<u8> {
    s.subrange(i * width, i * width + width)
}

/// The `size_t` values that a buffer holds one after the other. Bytes after
/// the last whole value are not part of any.
pub open spec fn spec_decode_vec_size(order: ByteOrder, s: Seq<u8>) -> Seq<size_t> {
    Seq::new(
        s.len() / word_width(),
        |i: int| order.value(chunk(s, word_width(), i)) as size_t,
    )
}

/// The `i`-th record of a buffer of `cl_name_version` records: the number
/// that its first four bytes spell, and the bytes of the name as they are.
pub open spec fn name_version_at(order: ByteOrder, s: Seq<u8>, i: int) -> (cl_version, Seq<u8>) {
    let record = chunk(s, NAME_VERSION_WIDTH as nat, i);
    (order.value(record.subrange(0, 4)) as cl_version, record.subrange(4, 68))
}

/// The records that a buffer holds one after the other. Bytes after the
/// last whole record are not part of any.
pub open spec fn spec_decode_vec_name_version(order: ByteOrder, s: Seq<u8>) -> Seq<
    (cl_version, Seq<u8>),
> {
    Seq::new(s.len() / NAME_VERSION_WIDTH as nat, |i: int| name_version_at(order, s, i))
}

/// The width of a machine word is 4 or 8 bytes, and a word holds every
/// number that so many bytes spell.
pub proof fn lemma_word_width()
    ensures
        word_width() == 4 || word_width() == 8,
        radix(word_width()) == usize::MAX + 1,
        radix(word_width()) == 2 * (isize::MAX + 1),
        isize::MIN == -(isize::MAX + 1),
{
    lemma_radix_values();
}

/// Reads a `cl_uint` from a buffer of exactly four bytes.
pub fn decode_uint(bytes: &[u8], order: ByteOrder) -> (r: Option<cl_uint>)
    ensures
        r == spec_decode_uint(order, bytes@),
        r matches Some(v) ==> v == order.value(bytes@),
{
    if bytes.len() != UINT_WIDTH {
        return None;
    }
    let v: u64 = read_uint(bytes, 0, UINT_WIDTH, order);
    proof {
        assert(bytes@.subrange(0, 4) =~= bytes@);
        lemma_value_below_radix(order, bytes@);
        lemma_radix_values();
    }
    Some(v as cl_uint)
}

/// Reads a `cl_ulong` from a buffer of exactly eight bytes.
pub fn decode_ulong(bytes: &[u8], order: ByteOrder) -> (r: Option<cl_ulong>)
    ensures
        r == spec_decode_ulong(order, bytes@),
        r matches Some(v) ==> v == order.value(bytes@),
{
    if bytes.len() != ULONG_WIDTH {
        return None;
    }
    let v: u64 = read_uint(bytes, 0, ULONG_WIDTH, order);
    proof {
        assert(bytes@.subrange(0, 8) =~= bytes@);
    }
    Some(v)
}

/// Width in bytes of `size_t` and `intptr_t` on this machine.
pub fn size_width() -> (w: usize)
    ensures
        w == word_width(),
        w == 4 || w == 8,
{
    (usize::BITS / 8) as usize
}

/// Reads a `size_t` from a buffer of exactly one machine word.
pub fn decode_size(bytes: &[u8], order: ByteOrder) -> (r: Option<size_t>)
    ensures
        r == spec_decode_size(order, bytes@),
        r matches Some(v) ==> v == order.value(bytes@),
{
    let w: usize = size_width();
    if bytes.len() != w {
        return None;
    }
    let v: u64 = read_uint(bytes, 0, w, order);
    proof {
        assert(bytes@.subrange(0, w as int) =~= bytes@);
        lemma_value_below_radix(order, bytes@);
        lemma_word_width();
    }
    Some(v as size_t)
}

/// Reads an `intptr_t` from a buffer of exactly one machine word.
pub fn decode_ptr(bytes: &[u8], order: ByteOrder) -> (r: Option<intptr_t>)
    ensures
        r == spec_decode_ptr(order, bytes@),
        r matches Some(v) ==> v == signed(order.value(bytes@), word_width()),
{
    let w: usize = size_width();
    if bytes.len() != w {
        return None;
    }
    let v: u64 = read_uint(bytes, 0, w, order);
    proof {
        assert(bytes@.subrange(0, w as int) =~= bytes@);
        lemma_value_below_radix(order, bytes@);
        lemma_word_width();
    }
    let top: u64 = isize::MAX as u64;
    if v <= top {
        Some(v as intptr_t)
    } else {
        let above: u64 = v - top - 1;
        Some(isize::MIN + (above as intptr_t))
    }
}

/// Reads the `size_t` values that a buffer holds one after the other.
pub fn decode_vec_size(bytes: &[u8], order: ByteOrder) -> (r: Vec<size_t>)
    ensures
        r@ == spec_decode_vec_size(order, bytes@),
        forall|i: int| 0 <= i < r@.len() ==> r@[i] == order.value(chunk(bytes@, word_width(), i)),
{
    let w: usize = size_width();
    let len: usize = bytes.len();
    let count: usize = len / w;
    let mut out: Vec<size_t> = Vec::with_capacity(count);
    let mut i: usize = 0;
    let mut at: usize = 0;
    while i < count
        invariant
            w == word_width(),
            w == 4 || w == 8,
            len == bytes@.len(),
            count == bytes@.len() / (w as nat),
            i <= count,
            at == i * w,
            out@.len() == i,
            forall|k: int| 0 <= k < i ==> out@[k] == order.value(chunk(bytes@, word_width(), k)),
        decreases count - i,
    {
        proof {
            assert(i * w + w <= count * w && count * w <= bytes@.len()) by (nonlinear_arith)
                requires
                    i < count,
                    w > 0,
                    count == bytes@.len() / (w as nat),
            ;
            lemma_value_below_radix(order, chunk(bytes@, word_width(), i as int));
            lemma_word_width();
        }
        let v: u64 = read_uint(bytes, at, w, order);
        out.push(v as size_t);
        proof {
            assert((i + 1) * w == i * w + w) by (nonlinear_arith);
        }
        at += w;
        i += 1;
    }
    proof {
        lemma_word_width();
        assert(out@ =~= spec_decode_vec_size(order, bytes@));
    }
    out
}

/// Reads the `cl_name_version` records that a buffer holds one after the
/// other.
pub fn decode_vec_name_version(bytes: &[u8], order: ByteOrder) -> (r: Vec<cl_name_version>)
    ensures
        name_version_views(r@) == spec_decode_vec_name_version(order, bytes@),
        forall|i: int| 0 <= i < r@.len() ==> (#[trigger] r@[i]).wf(),
{
    let len: usize = bytes.len();
    let count: usize = len / NAME_VERSION_WIDTH;
    let mut out: Vec<cl_name_version> = Vec::with_capacity(count);
    let mut i: usize = 0;
    while i < count
        invariant
            len == bytes@.len(),
            count == bytes@.len() / 68,
            i <= count,
            out@.len() == i,
            forall|k: int|
                0 <= k < i ==> (#[trigger] out@[k])@ == name_version_at(order, bytes@, k),
            forall|k: int| 0 <= k < i ==> (#[trigger] out@[k]).wf(),
        decreases count - i,
    {
        let at: usize = i * NAME_VERSION_WIDTH;
        let record = slice_subrange(bytes, at, at + NAME_VERSION_WIDTH);
        let v: u64 = read_uint(record, 0, UINT_WIDTH, order);
        proof {
            assert(record@ == chunk(bytes@, NAME_VERSION_WIDTH as nat, i as int));
            lemma_value_below_radix(order, record@.subrange(0, 4));
            lemma_radix_values();
        }
        let name = slice_to_vec(slice_subrange(record, UINT_WIDTH, NAME_VERSION_WIDTH));
        out.push(cl_name_version { version: v as cl_version, name });
        i += 1;
    }
    proof {
        assert(name_version_views(out@) =~= spec_decode_vec_name_version(order, bytes@));
    }
    out
}

} // verus!
