//! Identifiers, timestamps and library file names.
use vstd::prelude::*;
use vstd::string::*;

use crate::text::{decimal, decimal_text, hex_char, hex_digits, hex_digits_text, is_ascii_alnum};
use crate::data::{is_name_char, is_vm_name, vm_name_accepted_iff, vm_name_error};

verus! {

/// `SystemTime::now`, as seconds and nanoseconds since the Unix epoch; zero for a
/// clock set before it. Nothing is known of the moment but that the fraction is
/// less than a second.
#[verifier::external_body]
pub(crate) fn since_epoch() -> (r: (u64, u32))
    ensures
        r.1 < 1_000_000_000,
{
    let d = std::time::SystemTime::now().duration_since(std::time::UNIX_EPOCH).unwrap_or_default();
    (d.as_secs(), d.subsec_nanos())
}

/// Get current timestamp as seconds since Unix epoch.
///
/// Returns the timestamp as a simple string (e.g., "1705312345").
pub fn current_timestamp() -> (r: String)
    ensures
        is_timestamp(r@),
{
    let (secs, _nanos) = since_epoch();
    decimal_text(secs)
}

/// Whether a text is a timestamp: the numeral of a 64-bit number of seconds.
pub open spec fn is_timestamp(s: Seq<char>) -> bool {
    exists|n: u64| s == #[trigger] decimal(n as nat)
}

/// The number that four random bytes stand for, lowest byte first; without them
/// the low half of a clock reading, mixed with the process id.
pub open spec fn short_id_number(entropy: Option<[u8; 4]>, nanos: u128, pid: u32) -> nat {
    match entropy {
        Some(b) => b@[0] as nat + 256 * (b@[1] as nat) + 65536 * (b@[2] as nat) + 16777216 * (
        b@[3] as nat),
        None => ((((nanos % 0x1_0000_0000) as u32) ^ pid) as nat),
    }
}

/// Generate a short ID for auto-naming machines.
///
/// Produces an 8-character hex string (e.g., "a1b2c3d4") from 4 bytes of OS
/// entropy, or from time and pid where no entropy is at hand.
pub fn generate_short_id(entropy: Option<[u8; 4]>, nanos: u128, pid: u32) -> (r: String)
    ensures
        r@ == hex_digits(short_id_number(entropy, nanos, pid), 8),
{
    let n: u64 = match entropy {
        Some(b) => b[0] as u64 + 256 * (b[1] as u64) + 65536 * (b[2] as u64) + 16777216 * (
        b[3] as u64),
        None => (((nanos % 0x1_0000_0000) as u32) ^ pid) as u64,
    };
    hex_digits_text(n, 8)
}

/// The automatic machine name that belongs to a number.
pub open spec fn machine_name(n: nat) -> Seq<char> {
    "vm-"@ + hex_digits(n, 8)
}

/// Generate an auto machine name (e.g., "vm-a1b2c3d4").
pub fn generate_machine_name(entropy: Option<[u8; 4]>, nanos: u128, pid: u32) -> (r: String)
    ensures
        r@ == machine_name(short_id_number(entropy, nanos, pid)),
{
    String::from_str("vm-").concat(generate_short_id(entropy, nanos, pid).as_str())
}

/// Get the filename of libkrunfw dynamic lib, on macOS or on Linux.
pub fn libkrunfw_filename(macos: bool) -> (r: &'static str)
    ensures
        r@ == (if macos {
            "libkrunfw.5.dylib"@
        } else {
            "libkrunfw.so.5"@
        }),
{
    if macos {
        "libkrunfw.5.dylib"
    } else {
        "libkrunfw.so.5"
    }
}

/// Get the filename of the libkrun dynamic lib, on macOS or on Linux.
pub fn libkrun_filename(macos: bool) -> (r: &'static str)
    ensures
        r@ == (if macos {
            "libkrun.dylib"@
        } else {
            "libkrun.so"@
        }),
{
    if macos {
        "libkrun.dylib"
    } else {
        "libkrun.so"
    }
}

/// Fixed-width hexadecimal numerals have their width and hold lower-case hex digits only.
pub proof fn hex_digits_shape(n: nat, width: nat)
    ensures
        hex_digits(n, width).len() == width,
        forall|i: int| 0 <= i < width ==> is_ascii_alnum(#[trigger] hex_digits(n, width)[i]),
    decreases width,
{
    if width > 0 {
        hex_digits_shape(n / 16, (width - 1) as nat);
        let d = (n % 16) as int;
        assert(is_ascii_alnum(hex_char(d)));
    }
}

/// Numbers below 16^width are told apart by their fixed-width numerals.
pub proof fn hex_digits_injective(a: nat, b: nat, width: nat)
    requires
        hex_digits(a, width) == hex_digits(b, width),
        a < pow16(width),
        b < pow16(width),
    ensures
        a == b,
    decreases width,
{
    if width > 0 {
        let x = hex_digits(a / 16, (width - 1) as nat);
        let y = hex_digits(b / 16, (width - 1) as nat);
        let s = hex_digits(a, width);
        assert(s.drop_last() =~= x);
        assert(hex_digits(b, width).drop_last() =~= y);
        assert(s.last() == hex_char((a % 16) as int));
        assert(hex_digits(b, width).last() == hex_char((b % 16) as int));
        hex_digits_injective(a / 16, b / 16, (width - 1) as nat);
    }
}

/// Sixteen to the power of `k`.
pub open spec fn pow16(k: nat) -> nat
    decreases k,
{
    if k == 0 {
        1
    } else {
        16 * pow16((k - 1) as nat)
    }
}

/// Every automatic machine name is a valid machine name of 11 characters.
pub proof fn machine_names_are_valid(n: nat, label: Seq<char>)
    ensures
        machine_name(n).len() == 11,
        vm_name_error(machine_name(n), label) is None,
{
    let name = machine_name(n);
    reveal_strlit("vm-");
    hex_digits_shape(n, 8);
    let hex = hex_digits(n, 8);
    assert forall|i: int| 0 <= i < name.len() implies is_name_char(#[trigger] name[i]) by {
        if i >= 3 {
            assert(name[i] == hex[i - 3]);
        }
    }
    assert(name.last() == hex[7]);
    assert(name[3] == hex[0]);
    assert forall|i: int| 0 < i < name.len() implies !(name[i - 1] == '-' && #[trigger] name[i]
        == '-') by {
        if i >= 3 {
            assert(name[i] == hex[i - 3]);
        }
    }
    assert(is_vm_name(name));
    vm_name_accepted_iff(name, label);
}

/// Distinct random numbers of 32 bits give distinct machine names.
pub proof fn machine_names_are_distinct(a: nat, b: nat)
    requires
        a < 0x1_0000_0000,
        b < 0x1_0000_0000,
        a != b,
    ensures
        machine_name(a) != machine_name(b),
{
    if machine_name(a) == machine_name(b) {
        let x = hex_digits(a, 8);
        let y = hex_digits(b, 8);
        assert(machine_name(a).skip("vm-"@.len() as int) =~= x);
        assert(machine_name(b).skip("vm-"@.len() as int) =~= y);
        reveal_with_fuel(pow16, 9);
        hex_digits_injective(a, b, 8);
    }
}

/// Each random byte decides two digits of the name, so that different bytes give different
/// numbers.
pub proof fn random_bytes_are_all_used(a: [u8; 4], b: [u8; 4], nanos: u128, pid: u32)
    ensures
        short_id_number(Some(a), nanos, pid) < 0x1_0000_0000,
        short_id_number(Some(a), nanos, pid) == short_id_number(Some(b), nanos, pid) <==> (a@[0]
            == b@[0] && a@[1] == b@[1] && a@[2] == b@[2] && a@[3] == b@[3]),
{
}

/// Without random bytes the number depends on the moment and on the process: two processes
/// at one moment get different numbers.
pub proof fn processes_get_different_numbers(nanos: u128, pid: u32, other: u32)
    ensures
        short_id_number(None, nanos, pid) == short_id_number(None, nanos, other) <==> pid == other,
        short_id_number(None, nanos, 0) == nanos % 0x1_0000_0000,
{
    let low = (nanos % 0x1_0000_0000) as u32;
    assert((low ^ pid == low ^ other) <==> pid == other) by (bit_vector);
    assert(low ^ 0 == low) by (bit_vector);
}

} // verus!
