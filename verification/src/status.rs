//! Status codes and quality selectors of the adapter's C ABI.

use vstd::prelude::*;

verus! {

/// Successful adapter result.
pub const OK: i32 = 0;

/// Invalid public pointer, ratio, frame count, quality, or channel request.
pub const INVALID_ARGUMENT: i32 = -1;

/// libsamplerate failed the requested operation.
pub const LIBSAMPLERATE_ERROR: i32 = -2;

/// ABI v1 supports mono conversion only.
pub const UNSUPPORTED: i32 = -3;

/// The ABI v1 "best" quality selector. ABI v1 still accepts it; it selects
/// linear interpolation (`SRC_LINEAR`).
pub const SINC_BEST: i32 = 0;

/// The ABI v1 "medium" quality selector. ABI v1 still accepts it; it selects
/// linear interpolation (`SRC_LINEAR`).
pub const SINC_MEDIUM: i32 = 1;

/// The ABI v1 "fastest" quality selector. ABI v1 still accepts it; it selects
/// linear interpolation (`SRC_LINEAR`).
pub const SINC_FASTEST: i32 = 2;

/// libsamplerate's converter type for linear interpolation (`SRC_LINEAR`),
/// the only converter type this adapter creates.
pub const SRC_LINEAR: i32 = 4;

/// Whether `quality` is one of the three selectors that ABI v1 accepts.
pub open spec fn is_quality_selector(quality: i32) -> bool {
    quality == SINC_BEST || quality == SINC_MEDIUM || quality == SINC_FASTEST
}

/// Map one ABI quality selection to the libsamplerate converter type that it
/// selects: each of the three accepted selectors selects linear interpolation
/// (`SRC_LINEAR`); any other value is refused.
pub fn converter_type(quality: i32) -> (r: Option<i32>)
    ensures
        r == (if is_quality_selector(quality) { Some(SRC_LINEAR) } else { None::<i32> }),
        (r == Some(4i32)) == (quality == 0 || quality == 1 || quality == 2),
        (r is None) == !(quality == 0 || quality == 1 || quality == 2),
{
    if quality == SINC_BEST || quality == SINC_MEDIUM || quality == SINC_FASTEST {
        Some(SRC_LINEAR)
    } else {
        None
    }
}

} // verus!
