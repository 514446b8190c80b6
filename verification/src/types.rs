//! Scalar types of the OpenCL C API, and the handles of driver-owned objects.

pub use libc::{intptr_t, size_t};
use vstd::prelude::*;

verus! {

pub type cl_int = i32;

pub type cl_uint = u32;

pub type cl_ulong = u64;

pub type cl_bitfield = cl_ulong;

pub type cl_version = cl_uint;

pub type cl_mem_flags = cl_bitfield;

pub type cl_platform_info = cl_uint;

pub type cl_kernel_info = cl_uint;

pub type cl_kernel_arg_info = cl_uint;

pub type cl_kernel_work_group_info = cl_uint;

pub type cl_kernel_sub_group_info = cl_uint;

pub type cl_kernel_exec_info = cl_uint;

/// A reference to an object that the driver owns. It is passed by value and
/// never looked into; `addr` is the pointer that the driver gave, as a number.
#[derive(Clone, Copy, Debug, PartialEq, Eq, Structural)]
pub struct Handle {
    pub addr: usize,
}

pub type cl_platform_id = Handle;

pub type cl_device_id = Handle;

pub type cl_context = Handle;

pub type cl_command_queue = Handle;

pub type cl_mem = Handle;

pub type cl_program = Handle;

pub type cl_kernel = Handle;

pub type cl_event = Handle;

impl Handle {
    /// The handle that refers to nothing.
    pub fn null() -> (h: Handle)
        ensures
            h.addr == 0,
    {
        Handle { addr: 0 }
    }

    /// Whether the handle refers to nothing.
    pub fn is_null(&self) -> (b: bool)
        ensures
            b == (self.addr == 0),
    {
        self.addr == 0
    }
}

/// Length in bytes of the name field of a `cl_name_version` record.
pub const CL_NAME_VERSION_MAX_NAME_SIZE: usize = 64;

/// One record of a list of names with versions, as the driver lays it out:
/// a packed version number followed by a NUL-padded name of fixed length.
#[derive(Clone, Debug, PartialEq, Eq)]
pub struct cl_name_version {
    pub version: cl_version,
    pub name: Vec<u8>,
}

impl View for cl_name_version {
    type V = (cl_version, Seq<u8>);

    /// The version, and the bytes of the name.
    open spec fn view(&self) -> (cl_version, Seq<u8>) {
        (self.version, self.name@)
    }
}

impl cl_name_version {
    /// The name field holds all of its bytes, padding included.
    pub open spec fn wf(&self) -> bool {
        self.name@.len() == CL_NAME_VERSION_MAX_NAME_SIZE
    }
}

/// What a list of records holds, record by record.
pub open spec fn name_version_views(records: Seq<cl_name_version>) -> Seq<(cl_version, Seq<u8>)> {
    records.map_values(|r: cl_name_version| r@)
}

} // verus!
