//! OpenCL Kernel Object API: making kernels, binding their arguments, and
//! asking what they say of themselves.

use crate::error_codes::{check, outcome};
use crate::query::{InfoQuery, Listing, Shape};
use crate::types::{
    cl_bitfield, cl_int, cl_kernel, cl_kernel_arg_info, cl_kernel_info, cl_kernel_sub_group_info,
    cl_kernel_work_group_info, cl_uint,
};
use vstd::prelude::*;

verus! {

pub const CL_KERNEL_ARG_ADDRESS_GLOBAL: cl_uint = 0x119B;

pub const CL_KERNEL_ARG_ADDRESS_LOCAL: cl_uint = 0x119C;

pub const CL_KERNEL_ARG_ADDRESS_CONSTANT: cl_uint = 0x119D;

pub const CL_KERNEL_ARG_ADDRESS_PRIVATE: cl_uint = 0x119E;

pub const CL_KERNEL_ARG_ACCESS_READ_ONLY: cl_uint = 0x11A0;

pub const CL_KERNEL_ARG_ACCESS_WRITE_ONLY: cl_uint = 0x11A1;

pub const CL_KERNEL_ARG_ACCESS_READ_WRITE: cl_uint = 0x11A2;

pub const CL_KERNEL_ARG_ACCESS_NONE: cl_uint = 0x11A3;

pub const CL_KERNEL_ARG_TYPE_NONE: cl_bitfield = 0;

pub const CL_KERNEL_ARG_TYPE_CONST: cl_bitfield = 1;

pub const CL_KERNEL_ARG_TYPE_RESTRICT: cl_bitfield = 2;

pub const CL_KERNEL_ARG_TYPE_VOLATILE: cl_bitfield = 4;

pub const CL_KERNEL_ARG_TYPE_PIPE: cl_bitfield = 8;

pub const CL_KERNEL_EXEC_INFO_SVM_PTRS: cl_uint = 0x11B6;

pub const CL_KERNEL_EXEC_INFO_SVM_FINE_GRAIN_SYSTEM: cl_uint = 0x11B7;

/// The result of `clCreateKernel`: the kernel that the driver made for a
/// function of a built program, or the status with which it refused.
pub fn create_kernel(status: cl_int, kernel: cl_kernel) -> (r: Result<cl_kernel, cl_int>)
    ensures
        r == outcome(status, kernel),
{
    check(status, kernel)
}

/// The result of the counting form of `clCreateKernelsInProgram`: how many
/// kernel functions the program has, or the status of the failure.
pub fn count_kernels_in_program(status: cl_int, count: cl_uint) -> (r: Result<cl_uint, cl_int>)
    ensures
        r == outcome(status, count),
{
    check(status, count)
}

/// The listing of the kernels of all functions of a program:
/// `clCreateKernelsInProgram`. The second call is made whatever the count,
/// for a list of exactly that many kernels.
pub fn create_kernels_in_program() -> (l: Listing)
    ensures
        l == (Listing { skip_empty: false }),
{
    Listing { skip_empty: false }
}

/// The result of `clCloneKernel`, of OpenCL 2.1: the copy that the driver
/// made, or the status with which it refused.
pub fn clone_kernel(status: cl_int, kernel: cl_kernel) -> (r: Result<cl_kernel, cl_int>)
    ensures
        r == outcome(status, kernel),
{
    check(status, kernel)
}

/// The result of `clRetainKernel`, which adds one to the reference count of
/// a kernel.
pub fn retain_kernel(status: cl_int) -> (r: Result<(), cl_int>)
    ensures
        r == outcome(status, ()),
{
    check(status, ())
}

/// The result of `clReleaseKernel`, which takes one off the reference count
/// of a kernel.
pub fn release_kernel(status: cl_int) -> (r: Result<(), cl_int>)
    ensures
        r == outcome(status, ()),
{
    check(status, ())
}

/// The result of `clSetKernelArg`, which binds a value to one argument of a
/// kernel.
pub fn set_kernel_arg(status: cl_int) -> (r: Result<(), cl_int>)
    ensures
        r == outcome(status, ()),
{
    check(status, ())
}

/// The result of `clSetKernelArgSVMPointer`, which binds a pointer into
/// shared virtual memory to one argument of a kernel.
pub fn set_kernel_arg_svm_pointer(status: cl_int) -> (r: Result<(), cl_int>)
    ensures
        r == outcome(status, ()),
{
    check(status, ())
}

/// The result of `clSetKernelExecInfo`, which tells a kernel more than its
/// arguments do.
pub fn set_kernel_exec_info(status: cl_int) -> (r: Result<(), cl_int>)
    ensures
        r == outcome(status, ()),
{
    check(status, ())
}

/// The properties of a kernel that can be asked: `cl_kernel_info`.
#[derive(Clone, Copy, Debug, PartialEq, Eq, Structural)]
pub enum KernelInfo {
    CL_KERNEL_FUNCTION_NAME,
    CL_KERNEL_NUM_ARGS,
    CL_KERNEL_REFERENCE_COUNT,
    CL_KERNEL_CONTEXT,
    CL_KERNEL_PROGRAM,
    /// Since OpenCL 1.2.
    CL_KERNEL_ATTRIBUTES,
}

impl KernelInfo {
    /// The code of the property in the C API.
    pub open spec fn spec_code(self) -> cl_kernel_info {
        match self {
            KernelInfo::CL_KERNEL_FUNCTION_NAME => 0x1190,
            KernelInfo::CL_KERNEL_NUM_ARGS => 0x1191,
            KernelInfo::CL_KERNEL_REFERENCE_COUNT => 0x1192,
            KernelInfo::CL_KERNEL_CONTEXT => 0x1193,
            KernelInfo::CL_KERNEL_PROGRAM => 0x1194,
            KernelInfo::CL_KERNEL_ATTRIBUTES => 0x1195,
        }
    }

    /// The shape that the standard documents for the property.
    pub open spec fn shape(self) -> Shape {
        match self {
            KernelInfo::CL_KERNEL_FUNCTION_NAME | KernelInfo::CL_KERNEL_ATTRIBUTES => {
                Shape::VecUchar
            },
            KernelInfo::CL_KERNEL_NUM_ARGS | KernelInfo::CL_KERNEL_REFERENCE_COUNT => Shape::Uint,
            KernelInfo::CL_KERNEL_CONTEXT | KernelInfo::CL_KERNEL_PROGRAM => Shape::Ptr,
        }
    }

    /// The code of the property in the C API.
    pub fn code(self) -> (c: cl_kernel_info)
        ensures
            c == self.spec_code(),
    {
        match self {
            KernelInfo::CL_KERNEL_FUNCTION_NAME => 0x1190,
            KernelInfo::CL_KERNEL_NUM_ARGS => 0x1191,
            KernelInfo::CL_KERNEL_REFERENCE_COUNT => 0x1192,
            KernelInfo::CL_KERNEL_CONTEXT => 0x1193,
            KernelInfo::CL_KERNEL_PROGRAM => 0x1194,
            KernelInfo::CL_KERNEL_ATTRIBUTES => 0x1195,
        }
    }
}

/// The query for the bytes of a property of a kernel, whatever the
/// property: `clGetKernelInfo` with `param_name`, answered as it comes.
pub fn get_kernel_data(param_name: cl_kernel_info) -> (q: InfoQuery)
    ensures
        q == (InfoQuery { param_name, shape: Shape::VecUchar, skip_empty: true }),
{
    InfoQuery { param_name, shape: Shape::VecUchar, skip_empty: true }
}

/// The query for a property of a kernel: `clGetKernelInfo` with the code of
/// the property, answered in the shape that the standard documents for it.
pub fn get_kernel_info(param_name: KernelInfo) -> (q: InfoQuery)
    ensures
        q == (InfoQuery {
            param_name: param_name.spec_code(),
            shape: param_name.shape(),
            skip_empty: true,
        }),
{
    let param_id = param_name.code();
    match param_name {
        KernelInfo::CL_KERNEL_FUNCTION_NAME | KernelInfo::CL_KERNEL_ATTRIBUTES => get_kernel_data(
            param_id,
        ),
        KernelInfo::CL_KERNEL_NUM_ARGS | KernelInfo::CL_KERNEL_REFERENCE_COUNT => InfoQuery {
            param_name: param_id,
            shape: Shape::Uint,
            skip_empty: true,
        },
        KernelInfo::CL_KERNEL_CONTEXT | KernelInfo::CL_KERNEL_PROGRAM => InfoQuery {
            param_name: param_id,
            shape: Shape::Ptr,
            skip_empty: true,
        },
    }
}

/// The properties of an argument of a kernel that can be asked:
/// `cl_kernel_arg_info`.
#[derive(Clone, Copy, Debug, PartialEq, Eq, Structural)]
pub enum KernelArgInfo {
    CL_KERNEL_ARG_ADDRESS_QUALIFIER,
    CL_KERNEL_ARG_ACCESS_QUALIFIER,
    CL_KERNEL_ARG_TYPE_NAME,
    CL_KERNEL_ARG_TYPE_QUALIFIER,
    CL_KERNEL_ARG_NAME,
}

impl KernelArgInfo {
    /// The code of the property in the C API.
    pub open spec fn spec_code(self) -> cl_kernel_arg_info {
        match self {
            KernelArgInfo::CL_KERNEL_ARG_ADDRESS_QUALIFIER => 0x1196,
            KernelArgInfo::CL_KERNEL_ARG_ACCESS_QUALIFIER => 0x1197,
            KernelArgInfo::CL_KERNEL_ARG_TYPE_NAME => 0x1198,
            KernelArgInfo::CL_KERNEL_ARG_TYPE_QUALIFIER => 0x1199,
            KernelArgInfo::CL_KERNEL_ARG_NAME => 0x119A,
        }
    }

    /// The shape that the standard documents for the property.
    pub open spec fn shape(self) -> Shape {
        match self {
            KernelArgInfo::CL_KERNEL_ARG_ADDRESS_QUALIFIER
            | KernelArgInfo::CL_KERNEL_ARG_ACCESS_QUALIFIER => Shape::Uint,
            KernelArgInfo::CL_KERNEL_ARG_TYPE_QUALIFIER => Shape::Ulong,
            KernelArgInfo::CL_KERNEL_ARG_TYPE_NAME | KernelArgInfo::CL_KERNEL_ARG_NAME => {
                Shape::VecUchar
            },
        }
    }

    /// The code of the property in the C API.
    pub fn code(self) -> (c: cl_kernel_arg_info)
        ensures
            c == self.spec_code(),
    {
        match self {
            KernelArgInfo::CL_KERNEL_ARG_ADDRESS_QUALIFIER => 0x1196,
            KernelArgInfo::CL_KERNEL_ARG_ACCESS_QUALIFIER => 0x1197,
            KernelArgInfo::CL_KERNEL_ARG_TYPE_NAME => 0x1198,
            KernelArgInfo::CL_KERNEL_ARG_TYPE_QUALIFIER => 0x1199,
            KernelArgInfo::CL_KERNEL_ARG_NAME => 0x119A,
        }
    }
}

/// The query for the bytes of a property of an argument of a kernel,
/// whatever the property: `clGetKernelArgInfo` with `param_name`, answered
/// as it comes.
pub fn get_kernel_arg_data(param_name: cl_kernel_arg_info) -> (q: InfoQuery)
    ensures
        q == (InfoQuery { param_name, shape: Shape::VecUchar, skip_empty: true }),
{
    InfoQuery { param_name, shape: Shape::VecUchar, skip_empty: true }
}

/// The query for a property of an argument of a kernel:
/// `clGetKernelArgInfo` with the code of the property, answered in the shape
/// that the standard documents for it.
pub fn get_kernel_arg_info(param_name: KernelArgInfo) -> (q: InfoQuery)
    ensures
        q == (InfoQuery {
            param_name: param_name.spec_code(),
            shape: param_name.shape(),
            skip_empty: true,
        }),
{
    let param_id = param_name.code();
    match param_name {
        KernelArgInfo::CL_KERNEL_ARG_ADDRESS_QUALIFIER
        | KernelArgInfo::CL_KERNEL_ARG_ACCESS_QUALIFIER => InfoQuery {
            param_name: param_id,
            shape: Shape::Uint,
            skip_empty: true,
        },
        KernelArgInfo::CL_KERNEL_ARG_TYPE_QUALIFIER => InfoQuery {
            param_name: param_id,
            shape: Shape::Ulong,
            skip_empty: true,
        },
        KernelArgInfo::CL_KERNEL_ARG_TYPE_NAME | KernelArgInfo::CL_KERNEL_ARG_NAME => {
            get_kernel_arg_data(param_id)
        },
    }
}

/// The properties of a kernel on one device that can be asked:
/// `cl_kernel_work_group_info`.
#[derive(Clone, Copy, Debug, PartialEq, Eq, Structural)]
pub enum KernelWorkGroupInfo {
    CL_KERNEL_WORK_GROUP_SIZE,
    CL_KERNEL_COMPILE_WORK_GROUP_SIZE,
    CL_KERNEL_LOCAL_MEM_SIZE,
    CL_KERNEL_PREFERRED_WORK_GROUP_SIZE_MULTIPLE,
    CL_KERNEL_PRIVATE_MEM_SIZE,
    CL_KERNEL_GLOBAL_WORK_SIZE,
}

impl KernelWorkGroupInfo {
    /// The code of the property in the C API.
    pub open spec fn spec_code(self) -> cl_kernel_work_group_info {
        match self {
            KernelWorkGroupInfo::CL_KERNEL_WORK_GROUP_SIZE => 0x11B0,
            KernelWorkGroupInfo::CL_KERNEL_COMPILE_WORK_GROUP_SIZE => 0x11B1,
            KernelWorkGroupInfo::CL_KERNEL_LOCAL_MEM_SIZE => 0x11B2,
            KernelWorkGroupInfo::CL_KERNEL_PREFERRED_WORK_GROUP_SIZE_MULTIPLE => 0x11B3,
            KernelWorkGroupInfo::CL_KERNEL_PRIVATE_MEM_SIZE => 0x11B4,
            KernelWorkGroupInfo::CL_KERNEL_GLOBAL_WORK_SIZE => 0x11B5,
        }
    }

    /// The shape that the standard documents for the property.
    pub open spec fn shape(self) -> Shape {
        match self {
            KernelWorkGroupInfo::CL_KERNEL_WORK_GROUP_SIZE
            | KernelWorkGroupInfo::CL_KERNEL_PREFERRED_WORK_GROUP_SIZE_MULTIPLE => Shape::Size,
            KernelWorkGroupInfo::CL_KERNEL_COMPILE_WORK_GROUP_SIZE
            | KernelWorkGroupInfo::CL_KERNEL_GLOBAL_WORK_SIZE => Shape::VecSize,
            KernelWorkGroupInfo::CL_KERNEL_LOCAL_MEM_SIZE
            | KernelWorkGroupInfo::CL_KERNEL_PRIVATE_MEM_SIZE => Shape::Ulong,
        }
    }

    /// The code of the property in the C API.
    pub fn code(self) -> (c: cl_kernel_work_group_info)
        ensures
            c == self.spec_code(),
    {
        match self {
            KernelWorkGroupInfo::CL_KERNEL_WORK_GROUP_SIZE => 0x11B0,
            KernelWorkGroupInfo::CL_KERNEL_COMPILE_WORK_GROUP_SIZE => 0x11B1,
            KernelWorkGroupInfo::CL_KERNEL_LOCAL_MEM_SIZE => 0x11B2,
            KernelWorkGroupInfo::CL_KERNEL_PREFERRED_WORK_GROUP_SIZE_MULTIPLE => 0x11B3,
            KernelWorkGroupInfo::CL_KERNEL_PRIVATE_MEM_SIZE => 0x11B4,
            KernelWorkGroupInfo::CL_KERNEL_GLOBAL_WORK_SIZE => 0x11B5,
        }
    }
}

/// The query for the bytes of a property of a kernel on one device,
/// whatever the property: `clGetKernelWorkGroupInfo` with `param_name`,
/// answered as it comes.
pub fn get_kernel_work_group_data(param_name: cl_kernel_work_group_info) -> (q: InfoQuery)
    ensures
        q == (InfoQuery { param_name, shape: Shape::VecUchar, skip_empty: true }),
{
    InfoQuery { param_name, shape: Shape::VecUchar, skip_empty: true }
}

/// The query for a property of a kernel on one device:
/// `clGetKernelWorkGroupInfo` with the code of the property, answered in the
/// shape that the standard documents for it.
pub fn get_kernel_work_group_info(param_name: KernelWorkGroupInfo) -> (q: InfoQuery)
    ensures
        q == (InfoQuery {
            param_name: param_name.spec_code(),
            shape: param_name.shape(),
            skip_empty: true,
        }),
{
    let param_id = param_name.code();
    match param_name {
        KernelWorkGroupInfo::CL_KERNEL_WORK_GROUP_SIZE
        | KernelWorkGroupInfo::CL_KERNEL_PREFERRED_WORK_GROUP_SIZE_MULTIPLE => InfoQuery {
            param_name: param_id,
            shape: Shape::Size,
            skip_empty: true,
        },
        KernelWorkGroupInfo::CL_KERNEL_COMPILE_WORK_GROUP_SIZE
        | KernelWorkGroupInfo::CL_KERNEL_GLOBAL_WORK_SIZE => InfoQuery {
            param_name: param_id,
            shape: Shape::VecSize,
            skip_empty: true,
        },
        KernelWorkGroupInfo::CL_KERNEL_LOCAL_MEM_SIZE
        | KernelWorkGroupInfo::CL_KERNEL_PRIVATE_MEM_SIZE => InfoQuery {
            param_name: param_id,
            shape: Shape::Ulong,
            skip_empty: true,
        },
    }
}

/// The properties of the sub-groups of a kernel on one device that can be
/// asked: `cl_kernel_sub_group_info`.
#[derive(Clone, Copy, Debug, PartialEq, Eq, Structural)]
pub enum KernelSubGroupInfo {
    CL_KERNEL_MAX_SUB_GROUP_SIZE_FOR_NDRANGE,
    CL_KERNEL_SUB_GROUP_COUNT_FOR_NDRANGE,
    CL_KERNEL_LOCAL_SIZE_FOR_SUB_GROUP_COUNT,
    CL_KERNEL_MAX_NUM_SUB_GROUPS,
    CL_KERNEL_COMPILE_NUM_SUB_GROUPS,
}

impl KernelSubGroupInfo {
    /// The code of the property in the C API.
    pub open spec fn spec_code(self) -> cl_kernel_sub_group_info {
        match self {
            KernelSubGroupInfo::CL_KERNEL_MAX_SUB_GROUP_SIZE_FOR_NDRANGE => 0x2033,
            KernelSubGroupInfo::CL_KERNEL_SUB_GROUP_COUNT_FOR_NDRANGE => 0x2034,
            KernelSubGroupInfo::CL_KERNEL_LOCAL_SIZE_FOR_SUB_GROUP_COUNT => 0x11B8,
            KernelSubGroupInfo::CL_KERNEL_MAX_NUM_SUB_GROUPS => 0x11B9,
            KernelSubGroupInfo::CL_KERNEL_COMPILE_NUM_SUB_GROUPS => 0x11BA,
        }
    }

    /// The shape that the standard documents for the property.
    pub open spec fn shape(self) -> Shape {
        match self {
            KernelSubGroupInfo::CL_KERNEL_MAX_SUB_GROUP_SIZE_FOR_NDRANGE
            | KernelSubGroupInfo::CL_KERNEL_SUB_GROUP_COUNT_FOR_NDRANGE
            | KernelSubGroupInfo::CL_KERNEL_MAX_NUM_SUB_GROUPS
            | KernelSubGroupInfo::CL_KERNEL_COMPILE_NUM_SUB_GROUPS => Shape::Size,
            KernelSubGroupInfo::CL_KERNEL_LOCAL_SIZE_FOR_SUB_GROUP_COUNT => Shape::VecSize,
        }
    }

    /// The code of the property in the C API.
    pub fn code(self) -> (c: cl_kernel_sub_group_info)
        ensures
            c == self.spec_code(),
    {
        match self {
            KernelSubGroupInfo::CL_KERNEL_MAX_SUB_GROUP_SIZE_FOR_NDRANGE => 0x2033,
            KernelSubGroupInfo::CL_KERNEL_SUB_GROUP_COUNT_FOR_NDRANGE => 0x2034,
            KernelSubGroupInfo::CL_KERNEL_LOCAL_SIZE_FOR_SUB_GROUP_COUNT => 0x11B8,
            KernelSubGroupInfo::CL_KERNEL_MAX_NUM_SUB_GROUPS => 0x11B9,
            KernelSubGroupInfo::CL_KERNEL_COMPILE_NUM_SUB_GROUPS => 0x11BA,
        }
    }
}

/// The query for a property of the sub-groups of a kernel on one device, of
/// OpenCL 2.1: `clGetKernelSubGroupInfo` with the code of the property,
/// answered in the shape that the standard documents for it. The list of
/// local sizes is asked for in a second call whatever length the first
/// reports.
pub fn get_kernel_sub_group_info(param_name: KernelSubGroupInfo) -> (q: InfoQuery)
    ensures
        q == (InfoQuery {
            param_name: param_name.spec_code(),
            shape: param_name.shape(),
            skip_empty: false,
        }),
{
    let param_id = param_name.code();
    match param_name {
        KernelSubGroupInfo::CL_KERNEL_MAX_SUB_GROUP_SIZE_FOR_NDRANGE
        | KernelSubGroupInfo::CL_KERNEL_SUB_GROUP_COUNT_FOR_NDRANGE
        | KernelSubGroupInfo::CL_KERNEL_MAX_NUM_SUB_GROUPS
        | KernelSubGroupInfo::CL_KERNEL_COMPILE_NUM_SUB_GROUPS => InfoQuery {
            param_name: param_id,
            shape: Shape::Size,
            skip_empty: false,
        },
        KernelSubGroupInfo::CL_KERNEL_LOCAL_SIZE_FOR_SUB_GROUP_COUNT => InfoQuery {
            param_name: param_id,
            shape: Shape::VecSize,
            skip_empty: false,
        },
    }
}

/// No two properties of a kernel share a code.
pub proof fn lemma_kernel_codes_differ(a: KernelInfo, b: KernelInfo)
    requires
        a.spec_code() == b.spec_code(),
    ensures
        a == b,
{
}

/// No two properties of an argument share a code.
pub proof fn lemma_kernel_arg_codes_differ(a: KernelArgInfo, b: KernelArgInfo)
    requires
        a.spec_code() == b.spec_code(),
    ensures
        a == b,
{
}

/// No two properties of a kernel on a device share a code.
pub proof fn lemma_kernel_work_group_codes_differ(a: KernelWorkGroupInfo, b: KernelWorkGroupInfo)
    requires
        a.spec_code() == b.spec_code(),
    ensures
        a == b,
{
}

/// No two properties of the sub-groups of a kernel share a code.
pub proof fn lemma_kernel_sub_group_codes_differ(a: KernelSubGroupInfo, b: KernelSubGroupInfo)
    requires
        a.spec_code() == b.spec_code(),
    ensures
        a == b,
{
}

} // verus!
