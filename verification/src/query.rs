//! The exchange with the driver that answers a query.
//!
//! A query names a property of an object, and the driver writes the answer
//! into a buffer of the caller. Where the answer is one number, its width is
//! known and one native call fills a buffer of that width. Where it is a
//! string or a list, a first native call asks for the length alone and a
//! second one fills a buffer of exactly that length. Every native call
//! returns a status, and any status but `CL_SUCCESS` ends the exchange and
//! is its result.
//!
//! Nothing here calls the driver. An [`InfoQuery`] says which call comes
//! first, takes the driver's reply to it, and says what comes next: another
//! call, or the result.

use crate::decode::{
    decode_ptr, decode_size, decode_uint, decode_ulong, decode_vec_name_version, decode_vec_size,
    lemma_radix_values, lemma_value_below_radix, lemma_word_width, signed, size_width,
    spec_decode_vec_name_version, spec_decode_vec_size, word_width, ByteOrder, UINT_WIDTH,
    ULONG_WIDTH,
};
use crate::error_codes::{check, outcome, CL_SUCCESS};
use crate::info_type::{InfoType, InfoView};
use crate::types::{
    cl_int, cl_name_version, cl_uint, cl_ulong, intptr_t, name_version_views, size_t, Handle,
};
use vstd::prelude::*;

verus! {

/// The shape that the standard documents for the answer to a query.
#[derive(Clone, Copy, Debug, PartialEq, Eq, Structural)]
pub enum Shape {
    /// A C string, or bytes that the caller reads as they are.
    VecUchar,
    Uint,
    Ulong,
    Ptr,
    Size,
    VecSize,
    VecNameVersion,
}

/// A native call that the caller is to make.
#[derive(Clone, Copy, Debug, PartialEq, Eq, Structural)]
pub enum Call {
    /// With no buffer: the driver reports how long the answer is.
    Size,
    /// With a buffer of exactly `len` units: the driver fills it.
    Data { len: size_t },
}

/// What follows a reply of the driver: another call, or the result.
#[derive(Debug, PartialEq, Eq)]
pub enum Step<T> {
    Call(Call),
    Done(Result<T, cl_int>),
}

/// A query for one property: its code in the C API, the shape of its
/// answer, and whether an answer of length zero is complete without a
/// second call.
#[derive(Clone, Copy, Debug, PartialEq, Eq, Structural)]
pub struct InfoQuery {
    pub param_name: cl_uint,
    pub shape: Shape,
    pub skip_empty: bool,
}

/// What a result holds, as a mathematical value.
pub open spec fn result_view(r: Result<InfoType, cl_int>) -> Result<InfoView, cl_int> {
    match r {
        Ok(v) => Ok(v@),
        Err(e) => Err(e),
    }
}

/// What a step holds, as a mathematical value.
pub open spec fn step_view(s: Step<InfoType>) -> Step<InfoView> {
    match s {
        Step::Call(c) => Step::Call(c),
        Step::Done(r) => Step::Done(result_view(r)),
    }
}

impl Shape {
    /// The width in bytes of an answer of this shape, where it is one
    /// number; `None` where the driver has to be asked.
    pub open spec fn spec_width(self) -> Option<nat> {
        match self {
            Shape::Uint => Some(UINT_WIDTH as nat),
            Shape::Ulong => Some(ULONG_WIDTH as nat),
            Shape::Ptr | Shape::Size => Some(word_width()),
            Shape::VecUchar | Shape::VecSize | Shape::VecNameVersion => None,
        }
    }

    /// A buffer of `len` bytes can hold an answer of this shape: one number
    /// takes exactly its width, a string or a list any length.
    pub open spec fn accepts(self, len: nat) -> bool {
        self.spec_width() matches Some(w) ==> len == w
    }

    /// The answer of this shape that a buffer holds.
    pub open spec fn decode(self, order: ByteOrder, bytes: Seq<u8>) -> InfoView
        recommends
            self.accepts(bytes.len()),
    {
        match self {
            Shape::VecUchar => InfoView::VecUchar(bytes),
            Shape::Uint => InfoView::Uint(order.value(bytes) as cl_uint),
            Shape::Ulong => InfoView::Ulong(order.value(bytes) as cl_ulong),
            Shape::Ptr => InfoView::Ptr(signed(order.value(bytes), word_width()) as intptr_t),
            Shape::Size => InfoView::Size(order.value(bytes) as size_t),
            Shape::VecSize => InfoView::VecSize(spec_decode_vec_size(order, bytes)),
            Shape::VecNameVersion => InfoView::VecNameVersion(
                spec_decode_vec_name_version(order, bytes),
            ),
        }
    }

    /// The answer of this shape that has length zero: the empty string or
    /// the empty list.
    pub open spec fn spec_empty(self) -> InfoView
        recommends
            self.spec_width() is None,
    {
        match self {
            Shape::VecSize => InfoView::VecSize(Seq::empty()),
            Shape::VecNameVersion => InfoView::VecNameVersion(Seq::empty()),
            _ => InfoView::VecUchar(Seq::empty()),
        }
    }

    /// Whether a buffer of `len` bytes can hold an answer of this shape.
    pub fn fits(self, len: usize) -> (b: bool)
        ensures
            b == self.accepts(len as nat),
    {
        match self.width() {
            Some(w) => len == w,
            None => true,
        }
    }

    /// The width in bytes of an answer of this shape, where it is one
    /// number.
    pub fn width(self) -> (w: Option<usize>)
        ensures
            w is Some == self.spec_width() is Some,
            w matches Some(n) ==> self.spec_width() == Some(n as nat),
    {
        match self {
            Shape::Uint => Some(UINT_WIDTH),
            Shape::Ulong => Some(ULONG_WIDTH),
            Shape::Ptr | Shape::Size => Some(size_width()),
            Shape::VecUchar | Shape::VecSize | Shape::VecNameVersion => None,
        }
    }

    /// Reads the answer of this shape out of a buffer that can hold one.
    pub fn read(self, order: ByteOrder, bytes: Vec<u8>) -> (v: InfoType)
        requires
            self.accepts(bytes@.len()),
        ensures
            v@ == self.decode(order, bytes@),
    {
        match self {
            Shape::VecUchar => InfoType::VecUchar(bytes),
            Shape::Uint => InfoType::Uint(decode_uint(bytes.as_slice(), order).unwrap()),
            Shape::Ulong => InfoType::Ulong(decode_ulong(bytes.as_slice(), order).unwrap()),
            Shape::Ptr => InfoType::Ptr(decode_ptr(bytes.as_slice(), order).unwrap()),
            Shape::Size => InfoType::Size(decode_size(bytes.as_slice(), order).unwrap()),
            Shape::VecSize => InfoType::VecSize(decode_vec_size(bytes.as_slice(), order)),
            Shape::VecNameVersion => InfoType::VecNameVersion(
                decode_vec_name_version(bytes.as_slice(), order),
            ),
        }
    }

    /// The answer of this shape that has length zero.
    pub fn empty(self) -> (v: InfoType)
        requires
            self.spec_width() is None,
        ensures
            v@ == self.spec_empty(),
    {
        match self {
            Shape::VecSize => InfoType::VecSize(Vec::new()),
            Shape::VecNameVersion => {
                let records: Vec<cl_name_version> = Vec::new();
                assert(name_version_views(records@) =~= Seq::empty());
                InfoType::VecNameVersion(records)
            },
            _ => InfoType::VecUchar(Vec::new()),
        }
    }
}

impl InfoQuery {
    /// The call that opens the exchange.
    pub open spec fn spec_first(self) -> Call {
        match self.shape.spec_width() {
            Some(w) => Call::Data { len: w as size_t },
            None => Call::Size,
        }
    }

    /// What follows the driver's reply to `Call::Size`.
    pub open spec fn spec_sized(self, status: cl_int, size: size_t) -> Step<InfoView> {
        if status != CL_SUCCESS {
            Step::Done(Err(status))
        } else if size == 0 && self.skip_empty {
            Step::Done(Ok(self.shape.spec_empty()))
        } else {
            Step::Call(Call::Data { len: size })
        }
    }

    /// The result after the driver's reply to `Call::Data`.
    pub open spec fn spec_filled(self, order: ByteOrder, status: cl_int, bytes: Seq<u8>) -> Result<
        InfoView,
        cl_int,
    > {
        if status != CL_SUCCESS {
            Err(status)
        } else {
            Ok(self.shape.decode(order, bytes))
        }
    }

    /// The call that opens the exchange: for one number, the call that
    /// fills a buffer of its width; otherwise the call that asks the length.
    pub fn first(&self) -> (c: Call)
        ensures
            c == self.spec_first(),
    {
        match self.shape.width() {
            Some(w) => Call::Data { len: w },
            None => Call::Size,
        }
    }

    /// Takes the driver's reply to `Call::Size`: its status and the length
    /// in bytes that it reported. A failure is the result, and no second
    /// call is made. Otherwise the second call fills a buffer of exactly the
    /// reported length.
    pub fn sized(&self, status: cl_int, size: size_t) -> (s: Step<InfoType>)
        requires
            self.shape.spec_width() is None,
        ensures
            step_view(s) == self.spec_sized(status, size),
    {
        if CL_SUCCESS != status {
            Step::Done(Err(status))
        } else if size == 0 && self.skip_empty {
            Step::Done(Ok(self.shape.empty()))
        } else {
            Step::Call(Call::Data { len: size })
        }
    }

    /// Takes the driver's reply to `Call::Data`: its status and the buffer
    /// that it filled. A failure is the result; otherwise the result is what
    /// the buffer holds, every byte of it.
    pub fn filled(&self, order: ByteOrder, status: cl_int, bytes: Vec<u8>) -> (r: Result<
        InfoType,
        cl_int,
    >)
        requires
            status == CL_SUCCESS ==> self.shape.accepts(bytes@.len()),
        ensures
            result_view(r) == self.spec_filled(order, status, bytes@),
    {
        if CL_SUCCESS != status {
            Err(status)
        } else {
            Ok(self.shape.read(order, bytes))
        }
    }
}

/// A request for all the objects of one kind: the driver is asked how many
/// there are, and then for a list of exactly that many handles.
#[derive(Clone, Copy, Debug, PartialEq, Eq, Structural)]
pub struct Listing {
    /// Whether a count of zero is complete without a second call.
    pub skip_empty: bool,
}

/// What a step of a listing holds, as a mathematical value.
pub open spec fn listing_view(s: Step<Vec<Handle>>) -> Step<Seq<Handle>> {
    match s {
        Step::Call(c) => Step::Call(c),
        Step::Done(Ok(v)) => Step::Done(Ok(v@)),
        Step::Done(Err(e)) => Step::Done(Err(e)),
    }
}

impl Listing {
    /// What follows the driver's reply to `Call::Size`.
    pub open spec fn spec_counted(self, status: cl_int, count: cl_uint) -> Step<Seq<Handle>> {
        if status != CL_SUCCESS {
            Step::Done(Err(status))
        } else if count == 0 && self.skip_empty {
            Step::Done(Ok(Seq::empty()))
        } else {
            Step::Call(Call::Data { len: count as size_t })
        }
    }

    /// The call that opens the exchange: the one that counts.
    pub fn first(&self) -> (c: Call)
        ensures
            c == Call::Size,
    {
        Call::Size
    }

    /// Takes the driver's reply to the counting call: its status and the
    /// count. A failure is the result, and no second call is made. Otherwise
    /// the second call fills a list of exactly `count` handles.
    pub fn counted(&self, status: cl_int, count: cl_uint) -> (s: Step<Vec<Handle>>)
        ensures
            listing_view(s) == self.spec_counted(status, count),
    {
        if CL_SUCCESS != status {
            Step::Done(Err(status))
        } else if count == 0 && self.skip_empty {
            Step::Done(Ok(Vec::new()))
        } else {
            Step::Call(Call::Data { len: count as size_t })
        }
    }

    /// Takes the driver's reply to the filling call: its status and the
    /// list that it filled. A failure is the result; otherwise the list is,
    /// as it came.
    pub fn listed(&self, status: cl_int, handles: Vec<Handle>) -> (r: Result<Vec<Handle>, cl_int>)
        ensures
            r == outcome(status, handles),
    {
        check(status, handles)
    }
}

/// One number is asked for in a single call that fills a buffer of exactly
/// the width of its type, and the result is the number that those bytes
/// spell in the byte order given: as it is for the unsigned types, in two's
/// complement for `intptr_t`.
pub proof fn lemma_scalar_exchange(q: InfoQuery, order: ByteOrder, bytes: Seq<u8>)
    requires
        q.shape.spec_width() == Some(bytes.len()),
    ensures
        q.spec_first() == (Call::Data { len: bytes.len() as size_t }),
        q.spec_first()->len == bytes.len(),
        q.spec_filled(order, CL_SUCCESS, bytes) is Ok,
        q.shape == Shape::Uint ==> bytes.len() == 4 && (q.spec_filled(order, CL_SUCCESS, bytes)
            matches Ok(InfoView::Uint(n)) && n == order.value(bytes)),
        q.shape == Shape::Ulong ==> bytes.len() == 8 && (q.spec_filled(order, CL_SUCCESS, bytes)
            matches Ok(InfoView::Ulong(n)) && n == order.value(bytes)),
        q.shape == Shape::Size ==> bytes.len() == word_width() && (q.spec_filled(
            order,
            CL_SUCCESS,
            bytes,
        ) matches Ok(InfoView::Size(n)) && n == order.value(bytes)),
        q.shape == Shape::Ptr ==> bytes.len() == word_width() && (q.spec_filled(
            order,
            CL_SUCCESS,
            bytes,
        ) matches Ok(InfoView::Ptr(n)) && n == signed(order.value(bytes), word_width())),
{
    lemma_value_below_radix(order, bytes);
    lemma_radix_values();
    lemma_word_width();
}

/// A string or a list is asked for in two calls: the first asks the length,
/// the second fills a buffer of exactly the length that the first reported,
/// and the result holds what that buffer holds. For a string that is every
/// byte of it.
pub proof fn lemma_sized_exchange(q: InfoQuery, order: ByteOrder, size: size_t, bytes: Seq<u8>)
    requires
        q.shape.spec_width() is None,
        size > 0 || !q.skip_empty,
        bytes.len() == size,
    ensures
        q.spec_first() == Call::Size,
        q.spec_sized(CL_SUCCESS, size) == Step::<InfoView>::Call(Call::Data { len: size }),
        q.spec_filled(order, CL_SUCCESS, bytes) == Ok::<InfoView, cl_int>(
            q.shape.decode(order, bytes),
        ),
        q.shape == Shape::VecUchar ==> q.shape.decode(order, bytes) == InfoView::VecUchar(bytes),
{
}

/// A status other than `CL_SUCCESS` ends an exchange at once and is its
/// result, unchanged: after a failed first call no second call is made. And
/// no result is a failure unless the driver reported one.
pub proof fn lemma_failure_ends_exchange(
    q: InfoQuery,
    order: ByteOrder,
    status: cl_int,
    size: size_t,
    bytes: Seq<u8>,
)
    ensures
        status != CL_SUCCESS ==> q.spec_sized(status, size) == Step::<InfoView>::Done(Err(status)),
        status != CL_SUCCESS ==> q.spec_filled(order, status, bytes) == Err::<InfoView, cl_int>(
            status,
        ),
        q.spec_sized(status, size) matches Step::Done(Err(e)) ==> e == status && status
            != CL_SUCCESS,
        q.spec_filled(order, status, bytes) matches Err(e) ==> e == status && status != CL_SUCCESS,
{
}

/// The same of a listing: a failed count is the result, with no second
/// call, and every failure is the driver's own status.
pub proof fn lemma_failure_ends_listing(l: Listing, status: cl_int, count: cl_uint)
    ensures
        status != CL_SUCCESS ==> l.spec_counted(status, count) == Step::<Seq<Handle>>::Done(
            Err(status),
        ),
        l.spec_counted(status, count) matches Step::Done(Err(e)) ==> e == status && status
            != CL_SUCCESS,
{
}

/// A listing asks for exactly as many handles as the driver counted, and a
/// list of that many handles that the driver filled is the result, handle
/// for handle: as many as were counted, and none of them null where the
/// driver gave none that is.
pub proof fn lemma_listing_exchange(l: Listing, count: cl_uint, handles: Seq<Handle>)
    requires
        count > 0 || !l.skip_empty,
        handles.len() == count,
    ensures
        l.spec_counted(CL_SUCCESS, count) == Step::<Seq<Handle>>::Call(
            Call::Data { len: handles.len() as size_t },
        ),
        outcome(CL_SUCCESS, handles) matches Ok(v) && v == handles && v.len() == count,
        (forall|i: int| 0 <= i < handles.len() ==> handles[i].addr != 0) ==> (outcome(
            CL_SUCCESS,
            handles,
        ) matches Ok(v) && forall|i: int| 0 <= i < count ==> (#[trigger] v[i]).addr != 0),
{
}

/// An answer of length zero is the same empty string or list whether the
/// second call is left out or made: a buffer of no bytes holds it.
pub proof fn lemma_empty_answer(q: InfoQuery, order: ByteOrder)
    requires
        q.shape.spec_width() is None,
    ensures
        q.shape.decode(order, Seq::empty()) == q.shape.spec_empty(),
        q.skip_empty ==> q.spec_sized(CL_SUCCESS, 0) == Step::<InfoView>::Done(
            Ok(q.shape.spec_empty()),
        ),
        !q.skip_empty ==> q.spec_sized(CL_SUCCESS, 0) == Step::<InfoView>::Call(
            Call::Data { len: 0 },
        ),
        q.spec_filled(order, CL_SUCCESS, Seq::empty()) == Ok::<InfoView, cl_int>(
            q.shape.spec_empty(),
        ),
{
    lemma_word_width();
    assert(spec_decode_vec_size(order, Seq::empty()) =~= Seq::<size_t>::empty());
    assert(spec_decode_vec_name_version(order, Seq::empty()) =~= Seq::empty());
}

} // verus!
