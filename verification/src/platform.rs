//! OpenCL Platform API: which platforms there are, and what they say of
//! themselves.

use crate::query::{InfoQuery, Listing, Shape};
use crate::types::cl_platform_info;
use vstd::prelude::*;

verus! {

/// The properties of a platform that can be asked: `cl_platform_info`.
#[derive(Clone, Copy, Debug, PartialEq, Eq, Structural)]
pub enum PlatformInfo {
    CL_PLATFORM_PROFILE,
    CL_PLATFORM_VERSION,
    CL_PLATFORM_NAME,
    CL_PLATFORM_VENDOR,
    CL_PLATFORM_EXTENSIONS,
    /// Since OpenCL 2.1.
    CL_PLATFORM_HOST_TIMER_RESOLUTION,
    /// Since OpenCL 3.0.
    CL_PLATFORM_NUMERIC_VERSION,
    /// Since OpenCL 3.0.
    CL_PLATFORM_EXTENSIONS_WITH_VERSION,
}

impl PlatformInfo {
    /// The code of the property in the C API.
    pub open spec fn spec_code(self) -> cl_platform_info {
        match self {
            PlatformInfo::CL_PLATFORM_PROFILE => 0x0900,
            PlatformInfo::CL_PLATFORM_VERSION => 0x0901,
            PlatformInfo::CL_PLATFORM_NAME => 0x0902,
            PlatformInfo::CL_PLATFORM_VENDOR => 0x0903,
            PlatformInfo::CL_PLATFORM_EXTENSIONS => 0x0904,
            PlatformInfo::CL_PLATFORM_HOST_TIMER_RESOLUTION => 0x0905,
            PlatformInfo::CL_PLATFORM_NUMERIC_VERSION => 0x0906,
            PlatformInfo::CL_PLATFORM_EXTENSIONS_WITH_VERSION => 0x0907,
        }
    }

    /// The shape that the standard documents for the property.
    pub open spec fn shape(self) -> Shape {
        match self {
            PlatformInfo::CL_PLATFORM_PROFILE
            | PlatformInfo::CL_PLATFORM_VERSION
            | PlatformInfo::CL_PLATFORM_NAME
            | PlatformInfo::CL_PLATFORM_VENDOR
            | PlatformInfo::CL_PLATFORM_EXTENSIONS => Shape::VecUchar,
            PlatformInfo::CL_PLATFORM_NUMERIC_VERSION => Shape::Uint,
            PlatformInfo::CL_PLATFORM_HOST_TIMER_RESOLUTION => Shape::Ulong,
            PlatformInfo::CL_PLATFORM_EXTENSIONS_WITH_VERSION => Shape::VecNameVersion,
        }
    }

    /// The code of the property in the C API.
    pub fn code(self) -> (c: cl_platform_info)
        ensures
            c == self.spec_code(),
            0x0900 <= c <= 0x0907,
    {
        match self {
            PlatformInfo::CL_PLATFORM_PROFILE => 0x0900,
            PlatformInfo::CL_PLATFORM_VERSION => 0x0901,
            PlatformInfo::CL_PLATFORM_NAME => 0x0902,
            PlatformInfo::CL_PLATFORM_VENDOR => 0x0903,
            PlatformInfo::CL_PLATFORM_EXTENSIONS => 0x0904,
            PlatformInfo::CL_PLATFORM_HOST_TIMER_RESOLUTION => 0x0905,
            PlatformInfo::CL_PLATFORM_NUMERIC_VERSION => 0x0906,
            PlatformInfo::CL_PLATFORM_EXTENSIONS_WITH_VERSION => 0x0907,
        }
    }
}

/// No two properties of a platform share a code.
pub proof fn lemma_platform_codes_differ(a: PlatformInfo, b: PlatformInfo)
    requires
        a.spec_code() == b.spec_code(),
    ensures
        a == b,
{
}

/// The listing of the platforms: `clGetPlatformIDs`. Where the driver
/// counts none, the list is empty and no second call is made.
pub fn get_platform_ids() -> (l: Listing)
    ensures
        l == (Listing { skip_empty: true }),
{
    Listing { skip_empty: true }
}

/// The query for the bytes of a property of a platform, whatever the
/// property: `clGetPlatformInfo` with `param_name`, answered as it comes.
pub fn get_platform_data(param_name: cl_platform_info) -> (q: InfoQuery)
    ensures
        q == (InfoQuery { param_name, shape: Shape::VecUchar, skip_empty: true }),
{
    InfoQuery { param_name, shape: Shape::VecUchar, skip_empty: true }
}

/// The query for a property of a platform: `clGetPlatformInfo` with the
/// code of the property, answered in the shape that the standard documents
/// for it.
pub fn get_platform_info(param_name: PlatformInfo) -> (q: InfoQuery)
    ensures
        q == (InfoQuery {
            param_name: param_name.spec_code(),
            shape: param_name.shape(),
            skip_empty: true,
        }),
{
    let param_id = param_name.code();
    match param_name {
        PlatformInfo::CL_PLATFORM_PROFILE
        | PlatformInfo::CL_PLATFORM_VERSION
        | PlatformInfo::CL_PLATFORM_NAME
        | PlatformInfo::CL_PLATFORM_VENDOR
        | PlatformInfo::CL_PLATFORM_EXTENSIONS => get_platform_data(param_id),
        PlatformInfo::CL_PLATFORM_NUMERIC_VERSION => InfoQuery {
            param_name: param_id,
            shape: Shape::Uint,
            skip_empty: true,
        },
        PlatformInfo::CL_PLATFORM_HOST_TIMER_RESOLUTION => InfoQuery {
            param_name: param_id,
            shape: Shape::Ulong,
            skip_empty: true,
        },
        PlatformInfo::CL_PLATFORM_EXTENSIONS_WITH_VERSION => InfoQuery {
            param_name: param_id,
            shape: Shape::VecNameVersion,
            skip_empty: true,
        },
    }
}

} // verus!
