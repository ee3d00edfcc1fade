//! Which texts of time spans can be read.
//!
//! A text is a list of spans such as `2h 37min` or `1.5s`, each a number and a unit. The
//! spans are summed up in the order in which they stand, as seconds of 64 bits and
//! nanoseconds. A sum beyond that is refused by whoever reads the text, with one exception
//! that cannot be read at all: nanoseconds that make up exactly one second on top of the
//! largest number of seconds. What stands here finds that exception.
use vstd::prelude::*;
use vstd::string::*;

use crate::text::{char_vec, is_white_space, same};

verus! {

/// Nanoseconds in a second.
pub const NANOS_PER_SEC: u128 = 1_000_000_000;

/// The nanoseconds that no sum reaches: 2^64 seconds.
pub const SPAN_LIMIT: u128 = 18_446_744_073_709_551_616_000_000_000;

/// A unit of time.
#[derive(Debug, Clone, Copy, PartialEq, Eq, Structural)]
pub enum SpanUnit {
    /// A billionth of a second.
    Nanosecond,
    /// A millionth of a second.
    Microsecond,
    /// A thousandth of a second.
    Millisecond,
    /// A second.
    Second,
    /// 60 seconds.
    Minute,
    /// 60 minutes.
    Hour,
    /// 24 hours.
    Day,
    /// 7 days.
    Week,
    /// 30.44 days.
    Month,
    /// 365.25 days.
    Year,
}

/// The unit that a word names.
pub open spec fn unit_of(word: Seq<char>) -> Option<SpanUnit> {
    if word == "nanos"@ || word == "nsec"@ || word == "ns"@ {
        Some(SpanUnit::Nanosecond)
    } else if word == "usec"@ || word == "us"@ || word == "\u{b5}s"@ {
        Some(SpanUnit::Microsecond)
    } else if word == "millis"@ || word == "msec"@ || word == "ms"@ {
        Some(SpanUnit::Millisecond)
    } else if word == "seconds"@ || word == "second"@ || word == "secs"@ || word == "sec"@ || word
        == "s"@ {
        Some(SpanUnit::Second)
    } else if word == "minutes"@ || word == "minute"@ || word == "min"@ || word == "mins"@ || word
        == "m"@ {
        Some(SpanUnit::Minute)
    } else if word == "hours"@ || word == "hour"@ || word == "hr"@ || word == "hrs"@ || word
        == "h"@ {
        Some(SpanUnit::Hour)
    } else if word == "days"@ || word == "day"@ || word == "d"@ {
        Some(SpanUnit::Day)
    } else if word == "weeks"@ || word == "week"@ || word == "wk"@ || word == "wks"@ || word
        == "w"@ {
        Some(SpanUnit::Week)
    } else if word == "months"@ || word == "month"@ || word == "M"@ {
        Some(SpanUnit::Month)
    } else if word == "years"@ || word == "year"@ || word == "yr"@ || word == "yrs"@ || word
        == "y"@ {
        Some(SpanUnit::Year)
    } else {
        None
    }
}

/// The length of a unit, as seconds and nanoseconds of which one is zero.
pub open spec fn unit_length(u: SpanUnit) -> (u64, u64) {
    match u {
        SpanUnit::Nanosecond => (0, 1),
        SpanUnit::Microsecond => (0, 1_000),
        SpanUnit::Millisecond => (0, 1_000_000),
        SpanUnit::Second => (1, 0),
        SpanUnit::Minute => (60, 0),
        SpanUnit::Hour => (3_600, 0),
        SpanUnit::Day => (86_400, 0),
        SpanUnit::Week => (604_800, 0),
        SpanUnit::Month => (2_630_016, 0),
        SpanUnit::Year => (31_557_600, 0),
    }
}

/// The length of a unit where a decimal fraction of it is taken: up to a minute in
/// nanoseconds. A nanosecond has no fractions.
pub open spec fn fraction_length(u: SpanUnit) -> Option<(u64, u64)> {
    match u {
        SpanUnit::Nanosecond => None,
        SpanUnit::Second => Some((0, 1_000_000_000)),
        SpanUnit::Minute => Some((0, 60_000_000_000)),
        _ => Some(unit_length(u)),
    }
}

/// What is expected next in a text of time spans.
#[derive(Debug, Clone, Copy, PartialEq, Eq, Structural)]
pub enum SpanPhase {
    /// The first digit of a number.
    Start,
    /// More digits, a fraction or a unit.
    Number,
    /// Digits of a fraction, or a unit.
    Fraction,
    /// More letters of a unit.
    Unit,
    /// Nothing: the text is refused here.
    Refused,
    /// Nothing: the sum reaches 2^64 seconds by one second of nanoseconds.
    Overrun,
}

/// How far a text of time spans was read.
#[verifier::ext_equal]
pub struct SpanView {
    /// What is expected next.
    pub phase: SpanPhase,
    /// The whole part of the number.
    pub number: nat,
    /// The digits of its fraction.
    pub numerator: nat,
    /// Ten to the number of these digits.
    pub denominator: nat,
    /// The letters of the unit.
    pub unit: Seq<char>,
    /// The sum of the spans so far, in nanoseconds.
    pub total: nat,
}

/// The state before the first character.
pub open spec fn span_start() -> SpanView {
    SpanView {
        phase: SpanPhase::Start,
        number: 0,
        numerator: 0,
        denominator: 1,
        unit: Seq::empty(),
        total: 0,
    }
}

/// The state in which a text is refused.
pub open spec fn span_refused(t: SpanView) -> SpanView {
    SpanView { phase: SpanPhase::Refused, ..t }
}

/// The state behind one more addition to the sum.
pub open spec fn span_plus(t: SpanView, secs: nat, nanos: nat) -> SpanView {
    let part = t.total % (NANOS_PER_SEC as nat) + nanos;
    let total = t.total + secs * NANOS_PER_SEC as nat + nanos;
    if part > u64::MAX {
        span_refused(t)
    } else if total < SPAN_LIMIT {
        SpanView { total, ..t }
    } else if total == SPAN_LIMIT && part == NANOS_PER_SEC {
        SpanView { phase: SpanPhase::Overrun, ..t }
    } else {
        span_refused(t)
    }
}

/// The state behind `n / d` times a length: a product that is too large is refused, and a
/// quotient that is not whole.
pub open spec fn span_part(t: SpanView, n: nat, d: nat, length: (u64, u64)) -> SpanView {
    let secs = n * length.0 as nat;
    let nanos = n * length.1 as nat;
    if secs > u64::MAX || nanos > u64::MAX || secs % d != 0 || nanos % d != 0 {
        span_refused(t)
    } else {
        span_plus(t, secs / d, nanos / d)
    }
}

/// The state behind a whole span: its whole part is added, then its fraction.
pub open spec fn span_added(t: SpanView) -> SpanView {
    match unit_of(t.unit) {
        None => span_refused(t),
        Some(u) => {
            let whole = span_part(t, t.number, 1, unit_length(u));
            if t.denominator == 1 || whole.phase != t.phase {
                whole
            } else {
                match fraction_length(u) {
                    None => span_refused(whole),
                    Some(length) => span_part(whole, t.numerator, t.denominator, length),
                }
            }
        },
    }
}

/// Whether a character may stand in a unit.
pub open spec fn is_unit_char(c: char) -> bool {
    ('a' <= c <= 'z') || ('A' <= c <= 'Z') || c == '\u{b5}'
}

/// Whether a character is a digit.
pub open spec fn is_digit_char(c: char) -> bool {
    '0' <= c <= '9'
}

/// The value of a digit.
pub open spec fn digit_of(c: char) -> nat {
    (c as int - '0' as int) as nat
}

/// The state behind the first digit of a number.
pub open spec fn span_number(t: SpanView, c: char) -> SpanView {
    SpanView {
        phase: SpanPhase::Number,
        number: digit_of(c),
        numerator: 0,
        denominator: 1,
        unit: Seq::empty(),
        ..t
    }
}

/// The state behind one more character.
pub open spec fn span_next(t: SpanView, c: char) -> SpanView {
    match t.phase {
        SpanPhase::Start => if is_digit_char(c) {
            span_number(t, c)
        } else if is_white_space(c) {
            t
        } else {
            span_refused(t)
        },
        SpanPhase::Number => if is_digit_char(c) {
            if t.number * 10 + digit_of(c) > u64::MAX {
                span_refused(t)
            } else {
                SpanView { number: t.number * 10 + digit_of(c), ..t }
            }
        } else if is_white_space(c) {
            t
        } else if is_unit_char(c) {
            SpanView { phase: SpanPhase::Unit, unit: seq![c], ..t }
        } else if c == '.' {
            SpanView { phase: SpanPhase::Fraction, ..t }
        } else {
            span_refused(t)
        },
        SpanPhase::Fraction => if is_digit_char(c) {
            if t.denominator * 10 > u64::MAX {
                span_refused(t)
            } else {
                SpanView {
                    numerator: t.numerator * 10 + digit_of(c),
                    denominator: t.denominator * 10,
                    ..t
                }
            }
        } else if is_white_space(c) {
            t
        } else if is_unit_char(c) && t.denominator > 1 {
            SpanView { phase: SpanPhase::Unit, unit: seq![c], ..t }
        } else {
            span_refused(t)
        },
        SpanPhase::Unit => if is_digit_char(c) {
            let added = span_added(t);
            if added.phase == SpanPhase::Unit {
                span_number(added, c)
            } else {
                added
            }
        } else if is_white_space(c) {
            let added = span_added(t);
            if added.phase == SpanPhase::Unit {
                SpanView { phase: SpanPhase::Start, ..added }
            } else {
                added
            }
        } else if is_unit_char(c) {
            SpanView { unit: t.unit.push(c), ..t }
        } else {
            span_refused(t)
        },
        SpanPhase::Refused => t,
        SpanPhase::Overrun => t,
    }
}

/// The state behind the first `n` characters of a text.
pub open spec fn span_scan(s: Seq<char>, n: int) -> SpanView
    decreases n,
{
    if n <= 0 {
        span_start()
    } else {
        span_next(span_scan(s, n - 1), s[n - 1])
    }
}

/// Whether no sum of the spans of a text, up to any of them, reaches 2^64 seconds by
/// nanoseconds that make up exactly one second.
pub open spec fn is_bounded_span(s: Seq<char>) -> bool {
    let t = span_scan(s, s.len() as int);
    if t.phase == SpanPhase::Unit {
        span_added(t).phase != SpanPhase::Overrun
    } else {
        t.phase != SpanPhase::Overrun
    }
}

/// A reader of time spans.
struct SpanReader {
    phase: SpanPhase,
    number: u64,
    numerator: u64,
    denominator: u64,
    unit: String,
    total: u128,
}

impl View for SpanReader {
    type V = SpanView;

    closed spec fn view(&self) -> SpanView {
        SpanView {
            phase: self.phase,
            number: self.number as nat,
            numerator: self.numerator as nat,
            denominator: self.denominator as nat,
            unit: self.unit@,
            total: self.total as nat,
        }
    }
}

fn named_unit(word: &str) -> (r: Option<SpanUnit>)
    ensures
        r == unit_of(word@),
{
    if same(word, "nanos") || same(word, "nsec") || same(word, "ns") {
        Some(SpanUnit::Nanosecond)
    } else if same(word, "usec") || same(word, "us") || same(word, "\u{b5}s") {
        Some(SpanUnit::Microsecond)
    } else if same(word, "millis") || same(word, "msec") || same(word, "ms") {
        Some(SpanUnit::Millisecond)
    } else if same(word, "seconds") || same(word, "second") || same(word, "secs") || same(
        word,
        "sec",
    ) || same(word, "s") {
        Some(SpanUnit::Second)
    } else if same(word, "minutes") || same(word, "minute") || same(word, "min") || same(
        word,
        "mins",
    ) || same(word, "m") {
        Some(SpanUnit::Minute)
    } else if same(word, "hours") || same(word, "hour") || same(word, "hr") || same(word, "hrs")
        || same(word, "h") {
        Some(SpanUnit::Hour)
    } else if same(word, "days") || same(word, "day") || same(word, "d") {
        Some(SpanUnit::Day)
    } else if same(word, "weeks") || same(word, "week") || same(word, "wk") || same(word, "wks")
        || same(word, "w") {
        Some(SpanUnit::Week)
    } else if same(word, "months") || same(word, "month") || same(word, "M") {
        Some(SpanUnit::Month)
    } else if same(word, "years") || same(word, "year") || same(word, "yr") || same(word, "yrs")
        || same(word, "y") {
        Some(SpanUnit::Year)
    } else {
        None
    }
}

impl SpanUnit {
    fn length(self) -> (r: (u64, u64))
        ensures
            r == unit_length(self),
    {
        match self {
            SpanUnit::Nanosecond => (0, 1),
            SpanUnit::Microsecond => (0, 1_000),
            SpanUnit::Millisecond => (0, 1_000_000),
            SpanUnit::Second => (1, 0),
            SpanUnit::Minute => (60, 0),
            SpanUnit::Hour => (3_600, 0),
            SpanUnit::Day => (86_400, 0),
            SpanUnit::Week => (604_800, 0),
            SpanUnit::Month => (2_630_016, 0),
            SpanUnit::Year => (31_557_600, 0),
        }
    }

    fn length_of_fraction(self) -> (r: Option<(u64, u64)>)
        ensures
            r == fraction_length(self),
    {
        match self {
            SpanUnit::Nanosecond => None,
            SpanUnit::Second => Some((0, 1_000_000_000)),
            SpanUnit::Minute => Some((0, 60_000_000_000)),
            _ => Some(self.length()),
        }
    }
}

impl SpanReader {
    spec fn wf(&self) -> bool {
        &&& self.total < SPAN_LIMIT
        &&& self.numerator < self.denominator
    }

    fn plus(&mut self, secs: u64, nanos: u64)
        requires
            old(self).wf(),
        ensures
            final(self).wf(),
            final(self)@ == span_plus(old(self)@, secs as nat, nanos as nat),
    {
        let part: u128 = self.total % NANOS_PER_SEC + nanos as u128;
        let total: u128 = self.total + secs as u128 * NANOS_PER_SEC + nanos as u128;
        if part > u64::MAX as u128 {
            self.phase = SpanPhase::Refused;
        } else if total < SPAN_LIMIT {
            self.total = total;
        } else if total == SPAN_LIMIT && part == NANOS_PER_SEC {
            self.phase = SpanPhase::Overrun;
        } else {
            self.phase = SpanPhase::Refused;
        }
    }

    fn part(&mut self, n: u64, d: u64, length: (u64, u64))
        requires
            old(self).wf(),
            d > 0,
        ensures
            final(self).wf(),
            final(self)@ == span_part(old(self)@, n as nat, d as nat, length),
    {
        match (n.checked_mul(length.0), n.checked_mul(length.1)) {
            (Some(secs), Some(nanos)) => if secs % d != 0 || nanos % d != 0 {
                self.phase = SpanPhase::Refused;
            } else {
                self.plus(secs / d, nanos / d);
            },
            _ => {
                self.phase = SpanPhase::Refused;
            },
        }
    }

    fn add_span(&mut self)
        requires
            old(self).wf(),
            old(self).phase == SpanPhase::Unit,
        ensures
            final(self).wf(),
            final(self)@ == span_added(old(self)@),
    {
        match named_unit(self.unit.as_str()) {
            None => {
                self.phase = SpanPhase::Refused;
            },
            Some(u) => {
                self.part(self.number, 1, u.length());
                if self.denominator != 1 && self.phase == SpanPhase::Unit {
                    match u.length_of_fraction() {
                        None => {
                            self.phase = SpanPhase::Refused;
                        },
                        Some(length) => self.part(self.numerator, self.denominator, length),
                    }
                }
            },
        }
    }

    fn begin_number(&mut self, c: char)
        requires
            old(self).wf(),
            is_digit_char(c),
        ensures
            final(self).wf(),
            final(self)@ == span_number(old(self)@, c),
    {
        self.phase = SpanPhase::Number;
        self.number = (c as u32 - 48) as u64;
        self.numerator = 0;
        self.denominator = 1;
        self.unit = String::from_str("");
        proof {
            reveal_strlit("");
            assert(self.unit@ =~= Seq::<char>::empty());
        }
    }

    fn begin_unit(&mut self, c: char)
        requires
            old(self).wf(),
        ensures
            final(self).wf(),
            final(self)@ == (SpanView { phase: SpanPhase::Unit, unit: seq![c], ..old(self)@ }),
    {
        self.phase = SpanPhase::Unit;
        let mut unit = String::from_str("");
        unit.push(c);
        proof {
            reveal_strlit("");
            assert(unit@ =~= seq![c]);
        }
        self.unit = unit;
    }

    fn more_number(&mut self, c: char)
        requires
            old(self).wf(),
            old(self).phase == SpanPhase::Number,
            is_digit_char(c),
        ensures
            final(self).wf(),
            final(self)@ == span_next(old(self)@, c),
    {
        let number: u128 = self.number as u128 * 10 + (c as u32 - 48) as u128;
        if number > u64::MAX as u128 {
            self.phase = SpanPhase::Refused;
        } else {
            self.number = number as u64;
        }
    }

    fn more_fraction(&mut self, c: char)
        requires
            old(self).wf(),
            old(self).phase == SpanPhase::Fraction,
            is_digit_char(c),
        ensures
            final(self).wf(),
            final(self)@ == span_next(old(self)@, c),
    {
        if self.denominator as u128 * 10 > u64::MAX as u128 {
            self.phase = SpanPhase::Refused;
        } else {
            self.numerator = self.numerator * 10 + (c as u32 - 48) as u64;
            self.denominator = self.denominator * 10;
        }
    }

    fn next(&mut self, c: char)
        requires
            old(self).wf(),
        ensures
            final(self).wf(),
            final(self)@ == span_next(old(self)@, c),
    {
        let digit = '0' <= c && c <= '9';
        let space = c.is_whitespace();
        let letter = ('a' <= c && c <= 'z') || ('A' <= c && c <= 'Z') || c == '\u{b5}';
        match self.phase {
            SpanPhase::Start => if digit {
                self.begin_number(c);
            } else if !space {
                self.phase = SpanPhase::Refused;
            },
            SpanPhase::Number => if digit {
                self.more_number(c);
            } else if space {
            } else if letter {
                self.begin_unit(c);
            } else if c == '.' {
                self.phase = SpanPhase::Fraction;
            } else {
                self.phase = SpanPhase::Refused;
            },
            SpanPhase::Fraction => if digit {
                self.more_fraction(c);
            } else if space {
            } else if letter && self.denominator > 1 {
                self.begin_unit(c);
            } else {
                self.phase = SpanPhase::Refused;
            },
            SpanPhase::Unit => if digit {
                self.add_span();
                if self.phase == SpanPhase::Unit {
                    self.begin_number(c);
                }
            } else if space {
                self.add_span();
                if self.phase == SpanPhase::Unit {
                    self.phase = SpanPhase::Start;
                }
            } else if letter {
                self.unit.push(c);
            } else {
                self.phase = SpanPhase::Refused;
            },
            _ => {},
        }
    }
}

/// Tell whether a text can be read: no sum of its spans, up to any of them, reaches 2^64
/// seconds by nanoseconds that make up exactly one second.
pub fn bounded_span(s: &str) -> (r: bool)
    ensures
        r == is_bounded_span(s@),
{
    let chars = char_vec(s);
    let mut t = SpanReader {
        phase: SpanPhase::Start,
        number: 0,
        numerator: 0,
        denominator: 1,
        unit: String::from_str(""),
        total: 0,
    };
    proof {
        reveal_strlit("");
        assert(t@ =~= span_start());
    }
    for i in 0..chars.len()
        invariant
            chars@ == s@,
            t.wf(),
            t@ == span_scan(s@, i as int),
    {
        t.next(chars[i]);
    }
    if t.phase == SpanPhase::Unit {
        t.add_span();
    }
    t.phase != SpanPhase::Overrun
}

} // verus!
