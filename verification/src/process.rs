//! The decisions of the `process` and `reset` entry points.
//!
//! `process` runs in two steps around libsamplerate's streaming call.
//! `plan_process` decides from the caller's arguments what is written to the
//! caller's progress outputs, which status is returned without a native call,
//! and what the native call is given; `finish_process` decides from the native
//! call's answer which progress is reported.

use vstd::prelude::*;
use crate::ratio::valid_ratio;
use crate::status::{INVALID_ARGUMENT, LIBSAMPLERATE_ERROR, OK};

verus! {

/// One caller-owned F32 conversion request, as plain values: which of the
/// caller's pointers are non-null, the two frame counts, and the bit pattern
/// of the requested conversion ratio.
pub struct ProcessRequest {
    pub converter_present: bool,
    pub input_present: bool,
    pub input_frames: u32,
    pub output_present: bool,
    pub output_capacity: u32,
    pub ratio_bits: u64,
    pub input_used_present: bool,
    pub output_generated_present: bool,
}

/// What libsamplerate's streaming call is given for one block, besides the
/// caller's buffers: the input frame count, the output frame capacity, the
/// ratio's bit pattern, and whether the block ends the input stream.
pub struct BlockRequest {
    pub input_frames: u32,
    pub output_frames: u32,
    pub ratio_bits: u64,
    pub end_of_input: bool,
}

/// What `process` does after reading its arguments.
pub enum ProcessStep {
    /// Return `INVALID_ARGUMENT` and write nothing.
    Refuse,
    /// Set both progress outputs to zero and return `status` without calling
    /// libsamplerate.
    Finish { status: i32 },
    /// Set both progress outputs to zero, then call libsamplerate for `block`.
    Convert { block: BlockRequest },
}

/// The frames one call consumed and produced, as reported to the caller.
pub struct Progress {
    pub input_used: u32,
    pub output_generated: u32,
}

/// The step that `process` takes for `request`.
pub open spec fn process_step(request: ProcessRequest) -> ProcessStep {
    if !request.converter_present || !request.input_used_present
        || !request.output_generated_present {
        ProcessStep::Refuse
    } else if !crate::ratio::is_supported_ratio(request.ratio_bits) {
        ProcessStep::Finish { status: INVALID_ARGUMENT }
    } else if (request.input_frames != 0 && !request.input_present) || (request.output_capacity
        != 0 && !request.output_present) {
        ProcessStep::Finish { status: INVALID_ARGUMENT }
    } else if request.input_frames == 0 || request.output_capacity == 0 {
        ProcessStep::Finish { status: OK }
    } else {
        ProcessStep::Convert {
            block: BlockRequest {
                input_frames: request.input_frames,
                output_frames: request.output_capacity,
                ratio_bits: request.ratio_bits,
                end_of_input: false,
            },
        }
    }
}

/// Decide what `process` does with `request`. A null converter or progress
/// output is an invalid argument and nothing is written. Otherwise both
/// progress outputs are zeroed first; an unsupported ratio, or a nonzero frame
/// count whose buffer is null, is an invalid argument; an empty block (either
/// count zero) succeeds without calling libsamplerate; any other block is
/// handed to libsamplerate with its counts and ratio unchanged, as a block
/// that does not end the input stream (converters are persistent streams).
pub fn plan_process(request: &ProcessRequest) -> (r: ProcessStep)
    ensures
        r == process_step(*request),
        (r is Refuse) == !(request.converter_present && request.input_used_present
            && request.output_generated_present),
        (request.converter_present && request.input_used_present
            && request.output_generated_present && !(0x3F70_0000_0000_0000u64 <= request.ratio_bits
            && request.ratio_bits <= 0x4070_0000_0000_0000u64)) ==> r == (ProcessStep::Finish {
            status: -1i32,
        }),
        (request.converter_present && request.input_used_present
            && request.output_generated_present && ((request.input_frames != 0
            && !request.input_present) || (request.output_capacity != 0 && !request.output_present)))
            ==> r == (ProcessStep::Finish { status: -1i32 }),
        (request.converter_present && request.input_used_present
            && request.output_generated_present && 0x3F70_0000_0000_0000u64 <= request.ratio_bits
            && request.ratio_bits <= 0x4070_0000_0000_0000u64 && (request.input_frames == 0
            || request.input_present) && (request.output_capacity == 0 || request.output_present)
            && (request.input_frames == 0 || request.output_capacity == 0)) ==> r == (
        ProcessStep::Finish { status: 0i32 }),
        (request.converter_present && request.input_used_present
            && request.output_generated_present && 0x3F70_0000_0000_0000u64 <= request.ratio_bits
            && request.ratio_bits <= 0x4070_0000_0000_0000u64 && request.input_present
            && request.output_present && request.input_frames != 0 && request.output_capacity != 0)
            ==> r == (ProcessStep::Convert {
            block: BlockRequest {
                input_frames: request.input_frames,
                output_frames: request.output_capacity,
                ratio_bits: request.ratio_bits,
                end_of_input: false,
            },
        }),
{
    if !request.converter_present || !request.input_used_present
        || !request.output_generated_present {
        return ProcessStep::Refuse;
    }
    if !valid_ratio(request.ratio_bits) {
        return ProcessStep::Finish { status: INVALID_ARGUMENT };
    }
    if (request.input_frames != 0 && !request.input_present) || (request.output_capacity != 0
        && !request.output_present) {
        return ProcessStep::Finish { status: INVALID_ARGUMENT };
    }
    if request.input_frames == 0 || request.output_capacity == 0 {
        return ProcessStep::Finish { status: OK };
    }
    ProcessStep::Convert {
        block: BlockRequest {
            input_frames: request.input_frames,
            output_frames: request.output_capacity,
            ratio_bits: request.ratio_bits,
            end_of_input: false,
        },
    }
}

/// Whether libsamplerate's answer to `block` is a success within the block:
/// status zero, and frame counts that are neither negative nor beyond what
/// the block offered.
pub open spec fn reply_in_bounds(
    block: BlockRequest,
    library_result: i32,
    frames_used: i64,
    frames_generated: i64,
) -> bool {
    &&& library_result == 0
    &&& 0 <= frames_used <= block.input_frames
    &&& 0 <= frames_generated <= block.output_frames
}

/// The progress reported for libsamplerate's answer to `block`, or `None`
/// when the answer is a library error.
pub open spec fn block_progress(
    block: BlockRequest,
    library_result: i32,
    frames_used: i64,
    frames_generated: i64,
) -> Option<Progress> {
    if reply_in_bounds(block, library_result, frames_used, frames_generated) {
        Some(Progress { input_used: frames_used as u32, output_generated: frames_generated as u32 })
    } else {
        None
    }
}

/// Decide what libsamplerate's answer to `block` reports: its status
/// `library_result` and the frames it says it consumed and produced. A
/// nonzero status, a negative count, or a count beyond the block is a library
/// error (`None`, and the zeroed progress outputs stay zero); otherwise both
/// counts are reported exactly.
pub fn finish_process(
    block: &BlockRequest,
    library_result: i32,
    frames_used: i64,
    frames_generated: i64,
) -> (r: Option<Progress>)
    ensures
        r == block_progress(*block, library_result, frames_used, frames_generated),
        (library_result == 0 && 0 <= frames_used <= block.input_frames && 0 <= frames_generated
            <= block.output_frames) ==> (r matches Some(p) && p.input_used == frames_used
            && p.output_generated == frames_generated),
        !(library_result == 0 && 0 <= frames_used <= block.input_frames && 0 <= frames_generated
            <= block.output_frames) ==> r is None,
{
    if library_result != 0 || frames_used < 0 || frames_used > block.input_frames as i64
        || frames_generated < 0 || frames_generated > block.output_frames as i64 {
        return None;
    }
    Some(Progress { input_used: frames_used as u32, output_generated: frames_generated as u32 })
}

/// The status code that `process` returns for a finished native call.
pub open spec fn progress_status(progress: Option<Progress>) -> i32 {
    match progress {
        Some(_) => OK,
        None => LIBSAMPLERATE_ERROR,
    }
}

/// The status code that `process` returns for a finished native call:
/// `OK` when progress is reported, `LIBSAMPLERATE_ERROR` otherwise.
pub fn process_status(progress: &Option<Progress>) -> (r: i32)
    ensures
        r == progress_status(*progress),
        (r == 0) == (progress is Some),
        (r == -2) == (progress is None),
{
    match progress {
        Some(_) => OK,
        None => LIBSAMPLERATE_ERROR,
    }
}

/// The status code that `reset` returns: `library_result` is what
/// libsamplerate's reset returned, or `None` when the converter pointer was
/// null and libsamplerate was not called.
pub open spec fn reset_outcome(library_result: Option<i32>) -> i32 {
    match library_result {
        None => INVALID_ARGUMENT,
        Some(result) => if result == 0 { OK } else { LIBSAMPLERATE_ERROR },
    }
}

/// Decide the status that `reset` returns: a null converter is an invalid
/// argument; libsamplerate's status zero is `OK` and any other is a library
/// error.
pub fn reset_status(library_result: Option<i32>) -> (r: i32)
    ensures
        r == reset_outcome(library_result),
        (r == 0) == (library_result == Some(0i32)),
        library_result is None ==> r == -1,
        (library_result matches Some(result) && result != 0) ==> r == -2,
{
    match library_result {
        None => INVALID_ARGUMENT,
        Some(result) => if result == 0 { OK } else { LIBSAMPLERATE_ERROR },
    }
}

} // verus!
