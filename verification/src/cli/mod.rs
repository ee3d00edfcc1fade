//! Rules behind the command-line interface.
pub mod container;
pub mod lifecycle;
pub mod listing;
pub mod machine;
pub mod monitor;
pub mod pack;
pub mod pack_flow;
pub mod pack_run;
pub mod parsers;
pub mod run_flow;
pub mod search;
pub mod serve;
pub mod smolfile;
pub mod snapshot_flow;
pub mod spans;
pub mod vm_common;

use vstd::prelude::*;
use vstd::string::*;

use crate::text::{decimal, decimal_text, decimal_text_wide, int_text, signed_text};

verus! {

/// Display width for container IDs (first 12 characters).
pub const CONTAINER_ID_WIDTH: usize = 12;

/// Display width for image names.
pub const IMAGE_NAME_WIDTH: usize = 18;

/// Display width for command strings.
pub const COMMAND_WIDTH: usize = 28;

// ---------------------------------------------------------------------------
// Shortened text
// ---------------------------------------------------------------------------

/// A text that fits within `max` characters, or its first `max - 3` characters and
/// three dots.
pub open spec fn truncated(s: Seq<char>, max: int) -> Seq<char> {
    if s.len() <= max {
        s
    } else if max <= 3 {
        "..."@
    } else {
        s.take(max - 3) + "..."@
    }
}

/// Truncate a string to max length, adding "..." if needed.
///
/// If the string fits within `max` characters, returns it unchanged. Otherwise,
/// truncates to `max - 3` characters and appends "...".
pub fn truncate(s: &str, max: usize) -> (r: String)
    ensures
        r@ == truncated(s@, max as int),
{
    let n: usize = s.unicode_len();
    if n <= max {
        s.to_owned()
    } else if max <= 3 {
        "...".to_owned()
    } else {
        let head = s.substring_char(0, max - 3);
        proof {
            assert(head@ =~= s@.take(max - 3));
        }
        head.to_owned().concat("...")
    }
}

/// A shortened text has at most `max` characters, from a width of three on, and a
/// text that fits is left alone.
pub proof fn truncation_respects_width(s: Seq<char>, max: int)
    requires
        max >= 3,
    ensures
        truncated(s, max).len() <= max,
        s.len() <= max ==> truncated(s, max) == s,
        truncated(truncated(s, max), max) == truncated(s, max),
{
    reveal_strlit("...");
}

/// Truncate a container ID for display (first 12 characters).
pub fn truncate_id(id: &str) -> (r: &str)
    ensures
        r@ == (if id@.len() > CONTAINER_ID_WIDTH {
            id@.take(CONTAINER_ID_WIDTH as int)
        } else {
            id@
        }),
{
    let n: usize = id.unicode_len();
    if n > CONTAINER_ID_WIDTH {
        let head = id.substring_char(0, CONTAINER_ID_WIDTH);
        proof {
            assert(head@ =~= id@.take(CONTAINER_ID_WIDTH as int));
        }
        head
    } else {
        id
    }
}

/// The suffix that shows a process id.
pub open spec fn pid_suffix(pid: Option<i32>) -> Seq<char> {
    match pid {
        Some(p) => " (PID: "@ + int_text(p as int) + ")"@,
        None => Seq::empty(),
    }
}

/// Format an optional PID as a suffix string.
///
/// Returns " (PID: N)" if pid is Some, or empty string if None.
pub fn format_pid_suffix(pid: Option<i32>) -> (r: String)
    ensures
        r@ == pid_suffix(pid),
{
    match pid {
        Some(p) => String::from_str(" (PID: ").concat(signed_text(p as i64).as_str()).concat(")"),
        None => String::new(),
    }
}

// ---------------------------------------------------------------------------
// Columns
// ---------------------------------------------------------------------------

/// So many copies of a character.
pub open spec fn repeated(c: char, n: nat) -> Seq<char> {
    Seq::new(n, |i: int| c)
}

/// A text filled up with blanks on the right.
pub open spec fn pad_right(s: Seq<char>, width: nat) -> Seq<char> {
    if s.len() < width {
        s + repeated(' ', (width - s.len()) as nat)
    } else {
        s
    }
}

/// A text filled up with blanks on the left.
pub open spec fn pad_left(s: Seq<char>, width: nat) -> Seq<char> {
    if s.len() < width {
        repeated(' ', (width - s.len()) as nat) + s
    } else {
        s
    }
}

/// So many copies of a character.
pub fn repeat(c: char, n: usize) -> (r: String)
    ensures
        r@ == repeated(c, n as nat),
{
    let mut r = String::new();
    for i in 0..n
        invariant
            r@ =~= repeated(c, i as nat),
    {
        r.push(c);
    }
    r
}

/// A text filled up with blanks on the right.
pub fn left_aligned(s: &str, width: usize) -> (r: String)
    ensures
        r@ == pad_right(s@, width as nat),
{
    let n: usize = s.unicode_len();
    if n < width {
        s.to_owned().concat(repeat(' ', width - n).as_str())
    } else {
        s.to_owned()
    }
}

/// A text filled up with blanks on the left.
pub fn right_aligned(s: &str, width: usize) -> (r: String)
    ensures
        r@ == pad_left(s@, width as nat),
{
    let n: usize = s.unicode_len();
    if n < width {
        repeat(' ', width - n).concat(s)
    } else {
        s.to_owned()
    }
}

// ---------------------------------------------------------------------------
// Sizes
// ---------------------------------------------------------------------------

/// Bytes per displayed kilobyte.
pub const KB: u64 = 1024;

/// Bytes per displayed megabyte.
pub const MB: u64 = 1024 * 1024;

/// Bytes per displayed gigabyte.
pub const GB: u64 = 1024 * 1024 * 1024;

/// `n / d` rounded to the nearest integer, ties to the even one.
pub open spec fn round_half_even(n: nat, d: nat) -> nat {
    let q = n / d;
    let r = n % d;
    if 2 * r > d || (2 * r == d && q % 2 == 1) {
        q + 1
    } else {
        q
    }
}

/// The smallest power of two that brings a number to at most 53 bits.
pub open spec fn mantissa_step(n: nat) -> nat
    decreases n,
{
    if n < 0x20_0000_0000_0000 {
        1
    } else {
        2 * mantissa_step(n / 2)
    }
}

/// A number as it is kept with 53 significant bits: rounded, ties to even.
pub open spec fn fifty_three_bits(n: nat) -> nat {
    round_half_even(n, mantissa_step(n)) * mantissa_step(n)
}

/// A size in a unit, with one decimal.
pub open spec fn one_decimal(bytes: nat, unit: nat) -> Seq<char> {
    let tenths = round_half_even(fifty_three_bits(bytes) * 10, unit);
    decimal(tenths / 10) + "."@ + decimal(tenths % 10)
}

/// A size as text: gigabytes, megabytes or kilobytes with one decimal, or bytes.
pub open spec fn size_text(bytes: u64) -> Seq<char> {
    if bytes >= GB {
        one_decimal(bytes as nat, GB as nat) + " GB"@
    } else if bytes >= MB {
        one_decimal(bytes as nat, MB as nat) + " MB"@
    } else if bytes >= KB {
        one_decimal(bytes as nat, KB as nat) + " KB"@
    } else {
        decimal(bytes as nat) + " B"@
    }
}

fn rounded_half_even(n: u128, d: u128) -> (r: u128)
    requires
        0 < d < 0x1_0000_0000_0000_0000,
        n < 0x1_0000_0000_0000_0000_0000,
    ensures
        r == round_half_even(n as nat, d as nat),
        r <= n as int / d as int + 1,
{
    let q: u128 = n / d;
    let rem: u128 = n % d;
    proof {
        assert(n as int / d as int <= n as int) by (nonlinear_arith)
            requires
                n >= 0,
                d > 0,
        ;
    }
    if 2 * rem > d || (2 * rem == d && q % 2 == 1) {
        q + 1
    } else {
        q
    }
}

/// The smallest power of two that brings `n` to at most 53 bits.
fn mantissa_step_of(n: u64) -> (r: u64)
    ensures
        r == mantissa_step(n as nat),
        1 <= r,
        n >= 0x20_0000_0000_0000 ==> r <= n / 0x10_0000_0000_0000,
        n < 0x20_0000_0000_0000 ==> r == 1,
    decreases n,
{
    if n < 0x20_0000_0000_0000 {
        1
    } else {
        2 * mantissa_step_of(n / 2)
    }
}

/// The text of a size in a unit, with one decimal.
fn with_one_decimal(bytes: u64, unit: u64) -> (r: String)
    requires
        0 < unit,
    ensures
        r@ == one_decimal(bytes as nat, unit as nat),
{
    let step: u64 = mantissa_step_of(bytes);
    let count: u128 = rounded_half_even(bytes as u128, step as u128);
    proof {
        assert(count * step <= bytes + step) by (nonlinear_arith)
            requires
                count <= bytes as int / step as int + 1,
                step >= 1,
        ;
    }
    let kept: u128 = count * (step as u128);
    let tenths: u128 = rounded_half_even(kept * 10, unit as u128);
    decimal_text_wide(tenths / 10).concat(".").concat(decimal_text_wide(tenths % 10).as_str())
}

/// Format bytes as human-readable string (e.g., "1.5 GB", "42.0 MB").
pub fn format_bytes(bytes: u64) -> (r: String)
    ensures
        r@ == size_text(bytes),
{
    if bytes >= GB {
        with_one_decimal(bytes, GB).concat(" GB")
    } else if bytes >= MB {
        with_one_decimal(bytes, MB).concat(" MB")
    } else if bytes >= KB {
        with_one_decimal(bytes, KB).concat(" KB")
    } else {
        decimal_text(bytes).concat(" B")
    }
}

/// The decimal shown of a size is off by at most half a tenth: below 2^53 bytes
/// the size itself is rounded.
pub proof fn shown_size_is_close(bytes: nat, unit: nat)
    requires
        unit > 0,
        bytes < 0x20_0000_0000_0000,
    ensures
        ({
            let tenths = round_half_even(fifty_three_bits(bytes) * 10, unit) as int;
            -(unit as int) <= 2 * (tenths * unit - bytes * 10) <= unit
        }),
{
    assert(mantissa_step(bytes) == 1);
    assert(round_half_even(bytes, 1) == bytes);
    assert(fifty_three_bits(bytes) == bytes);
    let n = bytes * 10;
    let q = n / unit;
    let r = n % unit;
    assert(n == q * unit + r) by {
        vstd::arithmetic::div_mod::lemma_fundamental_div_mod(n as int, unit as int);
        assert(unit * q == q * unit) by (nonlinear_arith);
    }
    assert((q + 1) * unit == q * unit + unit) by (nonlinear_arith);
}

// ---------------------------------------------------------------------------
// Pull progress
// ---------------------------------------------------------------------------

/// The mark at a position of the progress bar: `=` up to where the pull has come,
/// `>` there, and a blank beyond.
pub open spec fn bar_mark(filled: int, i: int) -> char {
    if i < filled {
        '='
    } else if i == filled {
        '>'
    } else {
        ' '
    }
}

/// The progress bar of twenty marks, five percent each.
pub open spec fn bar(percent: int) -> Seq<char> {
    Seq::new(20, |i: int| bar_mark(percent / 5, i))
}

/// The progress bar of a pull.
fn bar_text(percent: u8) -> (r: String)
    ensures
        r@ == bar(percent as int),
{
    let filled: u8 = percent / 5;
    let mut r = String::new();
    let mut i: u8 = 0;
    while i < 20
        invariant
            i <= 20,
            filled == percent / 5,
            r@.len() == i,
            forall|k: int| 0 <= k < i ==> #[trigger] r@[k] == bar_mark(filled as int, k),
        decreases 20 - i,
    {
        if i < filled {
            r.push('=');
        } else if i == filled {
            r.push('>');
        } else {
            r.push(' ');
        }
        i = i + 1;
    }
    proof {
        assert(r@ =~= bar(percent as int));
    }
    r
}

/// What was shown last of a pull.
#[derive(Debug, Clone, Copy, PartialEq, Eq, Structural)]
pub struct PullProgress {
    /// Last percentage shown.
    pub last_percent: u8,
}

impl PullProgress {
    /// Nothing was shown yet.
    pub fn new() -> (r: PullProgress)
        ensures
            r.last_percent == 0,
    {
        PullProgress { last_percent: 0 }
    }

    /// Take a reported percentage: the line to show, where it is one that was not
    /// shown just before and at most a hundred.
    pub fn report(&mut self, image: &str, percent: u8) -> (r: Option<String>)
        ensures
            if percent != old(self).last_percent && percent <= 100 {
                &&& r matches Some(line) && line@ == "\rPulling image "@ + image@ + "... ["@ + bar(
                    percent as int,
                ) + "] "@ + decimal(percent as nat) + "%"@
                &&& final(self).last_percent == percent
            } else {
                r is None && *final(self) == *old(self)
            },
    {
        if percent == self.last_percent || percent > 100 {
            return None;
        }
        self.last_percent = percent;
        Some(
            String::from_str("\rPulling image ").concat(image).concat("... [").concat(
                bar_text(percent).as_str(),
            ).concat("] ").concat(decimal_text(percent as u64).as_str()).concat("%"),
        )
    }
}

/// The bar grows with the percentage: no mark that was passed is taken back, and at
/// a hundred percent every mark is passed.
pub proof fn bar_grows(a: int, b: int, i: int)
    requires
        0 <= a <= b <= 100,
        0 <= i < 20,
        bar(a)[i] == '=',
    ensures
        bar(b)[i] == '=',
        bar(100) == Seq::new(20, |k: int| '='),
{
    assert(a / 5 <= b / 5);
    assert(bar(100) =~= Seq::new(20, |k: int| '='));
}

/// The line that ends a pull.
pub fn pulled_line(image: &str) -> (r: String)
    ensures
        r@ == "\rPulling image "@ + image@ + "... done.                              "@,
{
    String::from_str("\rPulling image ").concat(image).concat(
        "... done.                              ",
    )
}

/// A text that is too long keeps its beginning and ends with three dots, and fills its width.
pub proof fn truncation_keeps_the_beginning(s: Seq<char>, max: int)
    requires
        max > 3,
        s.len() > max,
    ensures
        truncated(s, max).len() == max,
        truncated(s, max).take(max - 3) == s.take(max - 3),
        truncated(s, max).skip(max - 3) == "..."@,
{
    reveal_strlit("...");
    assert(truncated(s, max).take(max - 3) == s.take(max - 3));
    assert(truncated(s, max).skip(max - 3) == "..."@);
}

/// Filling up a text adds blanks alone, on one side, up to the width.
pub proof fn padding_adds_blanks_alone(s: Seq<char>, width: nat, i: int)
    ensures
        s.len() >= width ==> pad_right(s, width) == s && pad_left(s, width) == s,
        s.len() < width ==> {
            &&& pad_right(s, width).len() == width && pad_left(s, width).len() == width
            &&& pad_right(s, width).take(s.len() as int) == s
            &&& pad_left(s, width).skip(width - s.len()) == s
            &&& s.len() <= i < width ==> pad_right(s, width)[i] == ' '
            &&& 0 <= i < width - s.len() ==> pad_left(s, width)[i] == ' '
        },
{
    if s.len() < width {
        assert(pad_right(s, width).take(s.len() as int) == s);
        assert(pad_left(s, width).skip(width - s.len()) == s);
    }
}

proof fn lemma_whole_units(n: nat, unit: nat)
    requires
        unit > 0,
        n * unit < 0x20_0000_0000_0000,
    ensures
        one_decimal(n * unit, unit) == decimal(n) + "."@ + decimal(0),
{
    let bytes = n * unit;
    assert(mantissa_step(bytes) == 1);
    assert(round_half_even(bytes, 1) == bytes);
    assert(fifty_three_bits(bytes) == bytes) by (nonlinear_arith)
        requires
            fifty_three_bits(bytes) == round_half_even(bytes, 1) * 1,
            round_half_even(bytes, 1) == bytes,
    ;
    let tenfold = bytes * 10;
    assert(tenfold == unit * (n * 10)) by (nonlinear_arith)
        requires
            tenfold == bytes * 10,
            bytes == n * unit,
    ;
    assert(tenfold / unit == n * 10 && tenfold % unit == 0) by (nonlinear_arith)
        requires
            unit > 0,
            tenfold == unit * (n * 10),
    ;
    assert(round_half_even(tenfold, unit) == n * 10);
}

/// A whole number of units is shown as that number, in the largest unit that it reaches.
pub proof fn whole_sizes_are_shown_exactly(n: u64)
    requires
        1 <= n < 1024,
    ensures
        size_text(n) == decimal(n as nat) + " B"@,
        size_text((n * 1024) as u64) == decimal(n as nat) + "."@ + decimal(0) + " KB"@,
        size_text((n * 1_048_576) as u64) == decimal(n as nat) + "."@ + decimal(0) + " MB"@,
        size_text((n * 1_073_741_824) as u64) == decimal(n as nat) + "."@ + decimal(0) + " GB"@,
{
    lemma_whole_units(n as nat, 1024);
    lemma_whole_units(n as nat, 1_048_576);
    lemma_whole_units(n as nat, 1_073_741_824);
}

/// The bar has passed a mark once the percentage has come to its end, and stands at the one
/// that it is within.
pub proof fn bars_show_the_percentage(percent: int, i: int)
    requires
        0 <= percent <= 100,
        0 <= i < 20,
    ensures
        bar(percent).len() == 20,
        bar(percent)[i] == '=' <==> 5 * (i + 1) <= percent,
        bar(percent)[i] == '>' <==> 5 * i <= percent < 5 * (i + 1),
{
}

} // verus!
