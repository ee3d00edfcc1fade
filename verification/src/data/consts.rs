//! Shared constants.
use vstd::prelude::*;

verus! {

/// Bytes per mebibyte
pub const BYTES_PER_MIB: u64 = 1024 * 1024;

/// Bytes per gibibyte (GiB).
pub const BYTES_PER_GIB: u64 = 1024 * 1024 * 1024;

/// Name of the environment variable that overrides the directory used to
/// locate bundled native libraries.
pub const ENV_SMOLVM_LIB_DIR: &'static str = "SMOLVM_LIB_DIR";

/// Name of the environment variable that controls libkrun's log level
/// (`0 = off`, `1 = error`, `2 = warn`, `3 = info`, `4 = debug`).
pub const ENV_SMOLVM_KRUN_LOG_LEVEL: &'static str = "SMOLVM_KRUN_LOG_LEVEL";

/// Name of the environment variable the host sets on guest init to signal that
/// GPU acceleration was requested. A boolean sentinel: [`ENV_VALUE_ON`] when set.
pub const ENV_SMOLVM_GPU: &'static str = "SMOLVM_GPU";

/// Standard "enabled" value for boolean SMOLVM_* sentinel variables.
pub const ENV_VALUE_ON: &'static str = "1";

/// Sizes of up to 2^34 - 1 GiB fit 64 bits in bytes.
pub proof fn gib_in_bytes_fit(gib: u64)
    requires
        gib <= 0x3_ffff_ffff,
    ensures
        0 <= gib * BYTES_PER_GIB <= u64::MAX,
{
    assert(BYTES_PER_GIB == 0x4000_0000);
    assert(gib * 0x4000_0000 <= 0x3_ffff_ffff * 0x4000_0000) by (nonlinear_arith)
        requires
            gib <= 0x3_ffff_ffff,
    ;
}

} // verus!
