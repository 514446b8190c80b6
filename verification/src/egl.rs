//! OpenCL and EGL working together: images and events that both know.

use crate::error_codes::{check, outcome};
use crate::types::{cl_event, cl_int, cl_mem};
use vstd::prelude::*;

verus! {

/// The result of `clCreateFromEGLImageKHR`, of the extension
/// `cl_khr_egl_image`: the image object that the driver made from an EGL
/// image, or the status with which it refused.
pub fn create_from_egl_image(status: cl_int, mem: cl_mem) -> (r: Result<cl_mem, cl_int>)
    ensures
        r == outcome(status, mem),
{
    check(status, mem)
}

/// The result of `clEnqueueAcquireEGLObjectsKHR`, of the extension
/// `cl_khr_egl_image`: the event of the command that takes memory objects
/// over from EGL, or the status with which the driver refused it.
pub fn enqueue_acquire_egl_objects(status: cl_int, event: cl_event) -> (r: Result<
    cl_event,
    cl_int,
>)
    ensures
        r == outcome(status, event),
{
    check(status, event)
}

/// The result of `clEnqueueReleaseEGLObjectsKHR`, of the extension
/// `cl_khr_egl_image`: the event of the command that gives memory objects
/// back to EGL, or the status with which the driver refused it.
pub fn enqueue_release_egl_objects(status: cl_int, event: cl_event) -> (r: Result<
    cl_event,
    cl_int,
>)
    ensures
        r == outcome(status, event),
{
    check(status, event)
}

/// The result of `clCreateEventFromEGLSyncKHR`, of the extension
/// `cl_khr_egl_event`: the event that the driver tied to an EGL fence, or
/// the status with which it refused.
pub fn create_event_from_egl_sync_khr(status: cl_int, event: cl_event) -> (r: Result<
    cl_event,
    cl_int,
>)
    ensures
        r == outcome(status, event),
{
    check(status, event)
}

} // verus!
