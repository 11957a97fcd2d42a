//! A verified core for a chart-video recorder: the framed protocol spoken with the renderer
//! host, the host's per-frame session decisions, render-job control and dispatch, the plain
//! values of the C interface, FFmpeg argument lists and encoder choice, and the placement of
//! audio samples. Floating-point work, processes, threads and the C pointers live in the
//! application crate around this library.
#![allow(non_camel_case_types)]

pub mod text;
pub mod decimal;
pub mod le_bytes;
pub mod protocol;
pub mod validation;
pub mod config;
pub mod request;
pub mod control;
pub mod ffmpeg;
pub mod encoder;
pub mod graphics;
pub mod audio;
pub mod readback;
pub mod abi;
pub mod context;
pub mod job;
pub mod session;
pub mod host;
pub mod events;
pub mod view_fields;
