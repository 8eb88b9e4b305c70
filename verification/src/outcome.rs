//! What a C caller observes of `create` and `process`, end to end, and the
//! properties that hold of every such outcome.
//!
//! Each entry point runs as a plan, at most one native call, and a finish.
//! The reports below compose the plan and finish functions' own specifications
//! with an arbitrary native answer, so the properties hold whatever
//! libsamplerate answers.

use vstd::prelude::*;
use crate::converter::{create_ready, create_step, CreateStep};
use crate::process::{block_progress, process_step, progress_status, ProcessRequest, ProcessStep, Progress};
use crate::status::{
    is_quality_selector, INVALID_ARGUMENT, LIBSAMPLERATE_ERROR, OK, SRC_LINEAR, UNSUPPORTED,
};

verus! {

/// What `create` leaves in the caller's output slot.
pub enum Slot {
    /// The slot was not written (it was null).
    Untouched,
    /// The slot holds a null converter pointer.
    Null,
    /// The slot holds the new converter.
    Converter,
}

/// What a caller observes after one `create` call.
pub struct CreateReport {
    pub status: i32,
    pub slot: Slot,
}

/// The outcome of `create` for its arguments, when libsamplerate's constructor
/// (if it is called) returns a state or not (`state_present`) and reports
/// `library_error`.
pub open spec fn create_report(
    out_present: bool,
    quality: i32,
    channels: u32,
    state_present: bool,
    library_error: i32,
) -> CreateReport {
    match create_step(out_present, quality, channels) {
        CreateStep::Reject { status, clear_out } => CreateReport {
            status,
            slot: if clear_out { Slot::Null } else { Slot::Untouched },
        },
        CreateStep::CallNew { .. } => if create_ready(state_present, library_error) {
            CreateReport { status: OK, slot: Slot::Converter }
        } else {
            CreateReport { status: LIBSAMPLERATE_ERROR, slot: Slot::Null }
        },
    }
}

/// A converter is handed out exactly when `create` returns `OK`, and that
/// happens exactly for a present output slot, one of the three quality
/// selectors, one channel, and a constructor answer with a state and error
/// code zero. Every other call leaves a present output slot null.
pub proof fn lemma_create_hands_out_converter_only_on_success(
    out_present: bool,
    quality: i32,
    channels: u32,
    state_present: bool,
    library_error: i32,
)
    ensures
        ({
            let report = create_report(out_present, quality, channels, state_present, library_error);
            &&& (report.status == OK) == (report.slot is Converter)
            &&& (report.status == OK) == (out_present && is_quality_selector(quality) && channels
                == 1 && state_present && library_error == 0)
            &&& (out_present && report.status != OK) ==> report.slot is Null
            &&& !out_present ==> (report.status == INVALID_ARGUMENT && report.slot is Untouched)
        }),
{
}

/// With a present output slot, a quality that is not one of the three ABI v1
/// selectors is an invalid argument, whatever the channel count and whatever
/// libsamplerate would answer; the slot is left null and libsamplerate is not
/// asked. An accepted selector with a channel count other than one is
/// unsupported, likewise without asking libsamplerate.
pub proof fn lemma_create_refuses_bad_requests_without_library(
    quality: i32,
    channels: u32,
    state_present: bool,
    library_error: i32,
)
    ensures
        !(quality == 0 || quality == 1 || quality == 2) ==> (create_report(
            true,
            quality,
            channels,
            state_present,
            library_error,
        ) == (CreateReport { status: -1i32, slot: Slot::Null }) && create_step(true, quality, channels)
            is Reject),
        ((quality == 0 || quality == 1 || quality == 2) && channels != 1) ==> (create_report(
            true,
            quality,
            channels,
            state_present,
            library_error,
        ) == (CreateReport { status: -3i32, slot: Slot::Null }) && create_step(true, quality, channels)
            is Reject),
{
}

/// `reset` returns `OK` exactly when libsamplerate's reset returned zero;
/// every nonzero libsamplerate result is `LIBSAMPLERATE_ERROR`, and a null
/// converter (libsamplerate not called) is `INVALID_ARGUMENT`.
pub proof fn lemma_reset_reports_library_result(library_result: Option<i32>)
    ensures
        (crate::process::reset_outcome(library_result) == 0) == (library_result == Some(0i32)),
        library_result is None ==> crate::process::reset_outcome(library_result) == -1,
        (library_result matches Some(result) && result != 0) ==> crate::process::reset_outcome(
            library_result,
        ) == -2,
{
}

/// Whenever `create` calls libsamplerate's constructor, it asks for one mono
/// linear-interpolation (`SRC_LINEAR`) state, whichever of the three accepted
/// quality selectors the caller named.
pub proof fn lemma_create_requests_mono_linear(out_present: bool, quality: i32, channels: u32)
    ensures
        create_step(out_present, quality, channels) matches CreateStep::CallNew {
            converter_type,
            channels: native_channels,
        } ==> (converter_type == SRC_LINEAR && native_channels == 1 && is_quality_selector(quality)),
        (out_present && is_quality_selector(quality) && channels == 1) ==> create_step(
            out_present,
            quality,
            channels,
        ) is CallNew,
{
}

/// Every status that `create` returns is one of `OK`, `INVALID_ARGUMENT`,
/// `UNSUPPORTED` and `LIBSAMPLERATE_ERROR`; `UNSUPPORTED` is returned exactly
/// for a valid slot and quality with a channel count other than one.
pub proof fn lemma_create_status_codes(
    out_present: bool,
    quality: i32,
    channels: u32,
    state_present: bool,
    library_error: i32,
)
    ensures
        ({
            let status = create_report(out_present, quality, channels, state_present, library_error).status;
            &&& status == OK || status == INVALID_ARGUMENT || status == UNSUPPORTED || status
                == LIBSAMPLERATE_ERROR
            &&& (status == UNSUPPORTED) == (out_present && is_quality_selector(quality) && channels != 1)
        }),
{
}

/// What a caller observes after one `process` call: the returned status and,
/// when the progress outputs were written, the values left in them.
pub struct ProcessReport {
    pub status: i32,
    pub progress: Option<Progress>,
}

/// The outcome of `process` for `request`, when libsamplerate's streaming call
/// (if it is made) returns `library_result` and reports `frames_used` and
/// `frames_generated`.
pub open spec fn process_report(
    request: ProcessRequest,
    library_result: i32,
    frames_used: i64,
    frames_generated: i64,
) -> ProcessReport {
    match process_step(request) {
        ProcessStep::Refuse => ProcessReport { status: INVALID_ARGUMENT, progress: None },
        ProcessStep::Finish { status } => ProcessReport {
            status,
            progress: Some(Progress { input_used: 0, output_generated: 0 }),
        },
        ProcessStep::Convert { block } => {
            let reported = block_progress(block, library_result, frames_used, frames_generated);
            ProcessReport {
                status: progress_status(reported),
                progress: match reported {
                    Some(p) => Some(p),
                    None => Some(Progress { input_used: 0, output_generated: 0 }),
                },
            }
        },
    }
}

/// Whether the request names a converter and both progress outputs.
pub open spec fn has_targets(request: ProcessRequest) -> bool {
    request.converter_present && request.input_used_present && request.output_generated_present
}

/// A successful `process` reports progress within the caller's block: no more
/// input frames than it offered and no more output frames than its capacity.
pub proof fn lemma_process_success_within_block(
    request: ProcessRequest,
    library_result: i32,
    frames_used: i64,
    frames_generated: i64,
)
    ensures
        ({
            let report = process_report(request, library_result, frames_used, frames_generated);
            report.status == OK ==> (report.progress matches Some(p) && p.input_used
                <= request.input_frames && p.output_generated <= request.output_capacity)
        }),
{
    crate::ratio::lemma_supported_ratios_are_the_bit_interval(request.ratio_bits);
}

/// When the converter and both progress outputs are present, a `process` that
/// fails leaves both progress outputs at zero, whatever libsamplerate
/// answered; when one of them is null, nothing is written and the call is an
/// invalid argument.
pub proof fn lemma_process_failure_leaves_zero_progress(
    request: ProcessRequest,
    library_result: i32,
    frames_used: i64,
    frames_generated: i64,
)
    ensures
        ({
            let report = process_report(request, library_result, frames_used, frames_generated);
            &&& (has_targets(request) && report.status != OK) ==> report.progress == Some(
                Progress { input_used: 0, output_generated: 0 },
            )
            &&& !has_targets(request) ==> (report.status == INVALID_ARGUMENT && report.progress
                is None)
        }),
{
    crate::ratio::lemma_supported_ratios_are_the_bit_interval(request.ratio_bits);
}

/// A conversion that libsamplerate answers with status zero and counts within
/// the block returns `OK` and reports exactly the frames libsamplerate says it
/// consumed and produced; any other answer returns `LIBSAMPLERATE_ERROR` with
/// both progress outputs left at zero.
pub proof fn lemma_process_reports_library_counts_exactly(
    request: ProcessRequest,
    library_result: i32,
    frames_used: i64,
    frames_generated: i64,
)
    requires
        has_targets(request),
        0x3F70_0000_0000_0000u64 <= request.ratio_bits <= 0x4070_0000_0000_0000u64,
        request.input_present,
        request.output_present,
        request.input_frames != 0,
        request.output_capacity != 0,
    ensures
        ({
            let report = process_report(request, library_result, frames_used, frames_generated);
            let in_bounds = library_result == 0 && 0 <= frames_used <= request.input_frames && 0
                <= frames_generated <= request.output_capacity;
            &&& in_bounds ==> report.status == 0
            &&& in_bounds ==> (report.progress matches Some(p) && p.input_used == frames_used
                && p.output_generated == frames_generated)
            &&& !in_bounds ==> (report.status == -2 && report.progress == Some(
                Progress { input_used: 0, output_generated: 0 },
            ))
        }),
{
    crate::ratio::lemma_supported_ratios_are_the_bit_interval(request.ratio_bits);
}

/// With the converter and both progress outputs present, a nonzero input count
/// with a null input buffer, or a nonzero output capacity with a null output
/// buffer, is an invalid argument, whatever the other count and the ratio,
/// and the progress outputs are left at zero.
pub proof fn lemma_process_missing_buffer_is_invalid_argument(
    request: ProcessRequest,
    library_result: i32,
    frames_used: i64,
    frames_generated: i64,
)
    requires
        has_targets(request),
        (request.input_frames != 0 && !request.input_present) || (request.output_capacity != 0
            && !request.output_present),
    ensures
        process_report(request, library_result, frames_used, frames_generated) == (ProcessReport {
            status: -1i32,
            progress: Some(Progress { input_used: 0, output_generated: 0 }),
        }),
{
    crate::ratio::lemma_supported_ratios_are_the_bit_interval(request.ratio_bits);
}

/// libsamplerate is called exactly for a request whose pointers are all
/// present, whose ratio is supported and whose two frame counts are nonzero,
/// and it is given the caller's counts and ratio unchanged, never as the end
/// of the input stream.
pub proof fn lemma_process_calls_library_only_for_full_blocks(request: ProcessRequest)
    ensures
        (process_step(request) is Convert) == (has_targets(request) && 0x3F70_0000_0000_0000u64
            <= request.ratio_bits && request.ratio_bits <= 0x4070_0000_0000_0000u64
            && request.input_present && request.output_present && request.input_frames != 0
            && request.output_capacity != 0),
        process_step(request) matches ProcessStep::Convert { block } ==> (block.input_frames
            == request.input_frames && block.output_frames == request.output_capacity
            && block.ratio_bits == request.ratio_bits && !block.end_of_input),
{
    crate::ratio::lemma_supported_ratios_are_the_bit_interval(request.ratio_bits);
}

/// An empty block (a zero input count or a zero output capacity, with a
/// supported ratio and a buffer for any nonzero count) succeeds with zero
/// progress, whatever libsamplerate would have answered.
pub proof fn lemma_empty_block_succeeds(
    request: ProcessRequest,
    library_result: i32,
    frames_used: i64,
    frames_generated: i64,
)
    requires
        has_targets(request),
        0x3F70_0000_0000_0000u64 <= request.ratio_bits <= 0x4070_0000_0000_0000u64,
        request.input_frames == 0 || request.output_capacity == 0,
        request.input_frames != 0 ==> request.input_present,
        request.output_capacity != 0 ==> request.output_present,
    ensures
        process_report(request, library_result, frames_used, frames_generated) == (ProcessReport {
            status: OK,
            progress: Some(Progress { input_used: 0, output_generated: 0 }),
        }),
{
    crate::ratio::lemma_supported_ratios_are_the_bit_interval(request.ratio_bits);
}

/// Every status that `process` returns is one of `OK`, `INVALID_ARGUMENT` and
/// `LIBSAMPLERATE_ERROR`, and `LIBSAMPLERATE_ERROR` comes only from a call that
/// libsamplerate answered out of bounds.
pub proof fn lemma_process_status_codes(
    request: ProcessRequest,
    library_result: i32,
    frames_used: i64,
    frames_generated: i64,
)
    ensures
        ({
            let status = process_report(request, library_result, frames_used, frames_generated).status;
            &&& status == OK || status == INVALID_ARGUMENT || status == LIBSAMPLERATE_ERROR
            &&& status == LIBSAMPLERATE_ERROR ==> process_step(request) is Convert
        }),
{
    crate::ratio::lemma_supported_ratios_are_the_bit_interval(request.ratio_bits);
}

} // verus!
