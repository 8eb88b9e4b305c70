//! Versioned, mono-only libsamplerate adapter: the decisions behind its C ABI.
//!
//! The adapter exposes a small descriptor (`create`, `reset`, `process`,
//! `destroy`) to C callers. Every decision those entry points make (which
//! arguments are refused and with which status code, what is handed to
//! libsamplerate, and how libsamplerate's answers are translated back) is
//! stated and proved here over plain values. The native calls themselves are
//! made by the embedding layer, which hands their results to these functions.

pub mod converter;
pub mod descriptor;
pub mod outcome;
pub mod process;
pub mod ratio;
pub mod status;

pub use converter::{finish_create, plan_create, Converter, CreateStep, Created};
pub use descriptor::{capability_name, ABI_VERSION};
pub use process::{
    finish_process, plan_process, process_status, reset_status, BlockRequest, ProcessRequest,
    ProcessStep, Progress,
};
pub use ratio::valid_ratio;
pub use status::{
    converter_type, INVALID_ARGUMENT, LIBSAMPLERATE_ERROR, OK, SINC_BEST, SINC_FASTEST,
    SINC_MEDIUM, SRC_LINEAR, UNSUPPORTED,
};
