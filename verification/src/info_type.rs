//! The value that a query returns, in one of the shapes that the standard
//! documents.

use crate::text::{text_of, to_text};
use crate::types::{
    cl_name_version, cl_uint, cl_ulong, cl_version, intptr_t, name_version_views, size_t,
};
use vstd::prelude::*;

verus! {

pub type cl_uchar = u8;

/// The answer to a query. Which variant it is follows from the property
/// that was asked, never from the bytes that came back.
#[derive(Clone, Debug, PartialEq, Eq)]
pub enum InfoType {
    /// Bytes as the driver wrote them: a C string, trailing NUL included.
    VecUchar(Vec<cl_uchar>),
    Uint(cl_uint),
    Ulong(cl_ulong),
    /// A handle, as a pointer-sized integer.
    Ptr(intptr_t),
    Size(size_t),
    VecSize(Vec<size_t>),
    VecNameVersion(Vec<cl_name_version>),
}

/// What an `InfoType` holds, as a mathematical value.
pub enum InfoView {
    VecUchar(Seq<cl_uchar>),
    Uint(cl_uint),
    Ulong(cl_ulong),
    Ptr(intptr_t),
    Size(size_t),
    VecSize(Seq<size_t>),
    VecNameVersion(Seq<(cl_version, Seq<u8>)>),
}

impl View for InfoType {
    type V = InfoView;

    open spec fn view(&self) -> InfoView {
        match *self {
            InfoType::VecUchar(v) => InfoView::VecUchar(v@),
            InfoType::Uint(v) => InfoView::Uint(v),
            InfoType::Ulong(v) => InfoView::Ulong(v),
            InfoType::Ptr(v) => InfoView::Ptr(v),
            InfoType::Size(v) => InfoView::Size(v),
            InfoType::VecSize(v) => InfoView::VecSize(v@),
            InfoType::VecNameVersion(v) => InfoView::VecNameVersion(name_version_views(v@)),
        }
    }
}

impl InfoType {
    /// The bytes, where this is a byte string.
    pub fn to_vec_uchar(self) -> (r: Option<Vec<cl_uchar>>)
        ensures
            r == match self {
                InfoType::VecUchar(v) => Some(v),
                _ => None,
            },
    {
        match self {
            InfoType::VecUchar(v) => Some(v),
            _ => None,
        }
    }

    /// The text, where this is a byte string: see `text_of`.
    pub fn to_string(self) -> (r: Option<String>)
        ensures
            self matches InfoType::VecUchar(v) ==> r matches Some(s) && s@ == text_of(v@),
            !(self is VecUchar) ==> r is None,
    {
        match self {
            InfoType::VecUchar(v) => Some(to_text(v.as_slice())),
            _ => None,
        }
    }

    /// The number, where this is a `cl_uint`.
    pub fn to_uint(self) -> (r: Option<cl_uint>)
        ensures
            r == match self {
                InfoType::Uint(v) => Some(v),
                _ => None,
            },
    {
        match self {
            InfoType::Uint(v) => Some(v),
            _ => None,
        }
    }

    /// The number, where this is a `cl_ulong`.
    pub fn to_ulong(self) -> (r: Option<cl_ulong>)
        ensures
            r == match self {
                InfoType::Ulong(v) => Some(v),
                _ => None,
            },
    {
        match self {
            InfoType::Ulong(v) => Some(v),
            _ => None,
        }
    }

    /// The pointer-sized integer, where this is one.
    pub fn to_ptr(self) -> (r: Option<intptr_t>)
        ensures
            r == match self {
                InfoType::Ptr(v) => Some(v),
                _ => None,
            },
    {
        match self {
            InfoType::Ptr(v) => Some(v),
            _ => None,
        }
    }

    /// The number, where this is a `size_t`.
    pub fn to_size(self) -> (r: Option<size_t>)
        ensures
            r == match self {
                InfoType::Size(v) => Some(v),
                _ => None,
            },
    {
        match self {
            InfoType::Size(v) => Some(v),
            _ => None,
        }
    }

    /// The numbers, where this is a list of `size_t`.
    pub fn to_vec_size(self) -> (r: Option<Vec<size_t>>)
        ensures
            r == match self {
                InfoType::VecSize(v) => Some(v),
                _ => None,
            },
    {
        match self {
            InfoType::VecSize(v) => Some(v),
            _ => None,
        }
    }

    /// The records, where this is a list of names with versions.
    pub fn to_vec_name_version(self) -> (r: Option<Vec<cl_name_version>>)
        ensures
            r == match self {
                InfoType::VecNameVersion(v) => Some(v),
                _ => None,
            },
    {
        match self {
            InfoType::VecNameVersion(v) => Some(v),
            _ => None,
        }
    }
}

} // verus!
