//! The decisions of an OpenCL binding layer, apart from the native calls.
//!
//! A binding to the OpenCL C API does very little besides calling the driver:
//! it checks a status word, asks twice where an answer has no fixed size, and
//! gives the bytes that came back the shape that the standard documents for
//! the property that was asked. This crate holds exactly those decisions, as
//! functions from plain values to plain values, and proves what each of them
//! returns. The caller performs the native calls and hands the driver's
//! replies in.
#![allow(non_camel_case_types)]

pub mod error_codes;
pub mod types;
pub mod decode;
pub mod text;
pub mod info_type;
pub mod query;
pub mod platform;
pub mod kernel;
pub mod egl;
