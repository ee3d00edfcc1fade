//! Searching, splitting, trimming and number parsing over character sequences.
use vstd::prelude::*;
use vstd::string::*;

use crate::text::{char_vec, decimal, digit_char, int_text, is_white_space};

verus! {

// ---------------------------------------------------------------------------
// First and last occurrence
// ---------------------------------------------------------------------------

/// The index of the first `c`, or the length where there is none.
pub open spec fn first_of(s: Seq<char>, c: char) -> int
    decreases s.len(),
{
    if s.len() == 0 || s[0] == c {
        0
    } else {
        1 + first_of(s.drop_first(), c)
    }
}

/// The index of the last `c`, or -1 where there is none.
pub open spec fn last_of(s: Seq<char>, c: char) -> int
    decreases s.len(),
{
    if s.len() == 0 {
        -1
    } else if s.last() == c {
        s.len() - 1
    } else {
        last_of(s.drop_last(), c)
    }
}

/// The first index at which `c` stands is `first_of`.
pub proof fn lemma_first_of(s: Seq<char>, c: char, k: int)
    requires
        0 <= k <= s.len(),
        forall|j: int| 0 <= j < k ==> s[j] != c,
        k < s.len() ==> s[k] == c,
    ensures
        first_of(s, c) == k,
    decreases k,
{
    if k > 0 {
        lemma_first_of(s.drop_first(), c, k - 1);
    }
}

/// What `first_of` says of the text.
pub proof fn lemma_first_of_facts(s: Seq<char>, c: char)
    ensures
        0 <= first_of(s, c) <= s.len(),
        forall|j: int| 0 <= j < first_of(s, c) ==> s[j] != c,
        first_of(s, c) < s.len() ==> s[first_of(s, c)] == c,
        first_of(s, c) < s.len() <==> s.contains(c),
    decreases s.len(),
{
    if s.len() > 0 && s[0] != c {
        lemma_first_of_facts(s.drop_first(), c);
        let k = first_of(s, c);
        assert forall|j: int| 0 <= j < k implies s[j] != c by {
            if j > 0 {
                assert(s[j] == s.drop_first()[j - 1]);
            }
        }
        if s.contains(c) {
            let j = choose|j: int| 0 <= j < s.len() && s[j] == c;
            assert(s.drop_first()[j - 1] == c);
            assert(s.drop_first().contains(c));
        }
    } else if s.len() > 0 {
        assert(s[0] == c);
    }
}

/// The last index at which `c` stands is `last_of`.
pub proof fn lemma_last_of(s: Seq<char>, c: char, k: int)
    requires
        -1 <= k < s.len(),
        forall|j: int| k < j < s.len() ==> s[j] != c,
        k >= 0 ==> s[k] == c,
    ensures
        last_of(s, c) == k,
    decreases s.len(),
{
    if s.len() > 0 && k < s.len() - 1 {
        lemma_last_of(s.drop_last(), c, k);
    }
}

/// What `last_of` says of the text.
pub proof fn lemma_last_of_facts(s: Seq<char>, c: char)
    ensures
        -1 <= last_of(s, c) < s.len(),
        forall|j: int| last_of(s, c) < j < s.len() ==> s[j] != c,
        last_of(s, c) >= 0 ==> s[last_of(s, c)] == c,
    decreases s.len(),
{
    if s.len() > 0 && s.last() != c {
        let t = s.drop_last();
        lemma_last_of_facts(t, c);
        assert forall|j: int| last_of(s, c) < j < s.len() implies s[j] != c by {
            if j < t.len() {
                assert(s[j] == t[j]);
            }
        }
    }
}

/// The index of the first `c` at or after `from`, or the length.
pub fn find_from(v: &Vec<char>, c: char, from: usize) -> (k: usize)
    requires
        from <= v@.len(),
    ensures
        from <= k <= v@.len(),
        forall|j: int| from <= j < k ==> v@[j] != c,
        k < v@.len() ==> v@[k as int] == c,
        k == from + first_of(v@.skip(from as int), c),
{
    let mut k: usize = from;
    while k < v.len() && v[k] != c
        invariant
            from <= k <= v@.len(),
            forall|j: int| from <= j < k ==> v@[j] != c,
        decreases v@.len() - k,
    {
        k = k + 1;
    }
    proof {
        lemma_first_of(v@.skip(from as int), c, k - from);
    }
    k
}

/// Whether `c` occurs in the text.
pub fn contains_char(s: &str, c: char) -> (r: bool)
    ensures
        r == s@.contains(c),
{
    let v = char_vec(s);
    let k: usize = find_from(&v, c, 0);
    proof {
        assert(s@.skip(0) =~= s@);
        lemma_first_of_facts(s@, c);
    }
    k < v.len()
}

/// The index of the last `c` before `to`, counted from one; zero where there is none.
pub fn find_last(v: &Vec<char>, c: char) -> (k: usize)
    ensures
        k == last_of(v@, c) + 1,
        k <= v@.len(),
{
    let mut k: usize = v.len();
    while k > 0 && v[k - 1] != c
        invariant
            k <= v@.len(),
            forall|j: int| k <= j < v@.len() ==> v@[j] != c,
        decreases k,
    {
        k = k - 1;
    }
    proof {
        lemma_last_of(v@, c, k - 1);
    }
    k
}

/// The text before the first `c` and the text behind it, where there is a `c`.
pub open spec fn split_first(s: Seq<char>, c: char) -> Option<(Seq<char>, Seq<char>)> {
    let k = first_of(s, c);
    if k < s.len() {
        Some((s.take(k), s.skip(k + 1)))
    } else {
        None
    }
}

/// Split at the first `c`.
pub fn split_once(s: &str, c: char) -> (r: Option<(String, String)>)
    ensures
        r.deep_view() == split_first(s@, c),
{
    let v = char_vec(s);
    let k: usize = find_from(&v, c, 0);
    proof {
        assert(s@.skip(0) =~= s@);
    }
    if k < v.len() {
        let a = s.substring_char(0, k).to_owned();
        let b = s.substring_char(k + 1, v.len()).to_owned();
        proof {
            assert(a@ =~= s@.take(k as int));
            assert(b@ =~= s@.skip(k + 1));
        }
        Some((a, b))
    } else {
        None
    }
}

// ---------------------------------------------------------------------------
// Splitting at every separator
// ---------------------------------------------------------------------------

/// The pieces of a text between separators: one more than there are separators.
pub open spec fn split_all(s: Seq<char>, c: char) -> Seq<Seq<char>>
    decreases s.len(),
    via split_all_decreases
{
    let k = first_of(s, c);
    if k < s.len() {
        seq![s.take(k)] + split_all(s.skip(k + 1), c)
    } else {
        seq![s]
    }
}

#[via_fn]
proof fn split_all_decreases(s: Seq<char>, c: char) {
    lemma_first_of_facts(s, c);
}

/// The pieces of a text between separators.
pub fn split(s: &str, c: char) -> (r: Vec<String>)
    ensures
        r.deep_view() == split_all(s@, c),
        r@.len() >= 1,
{
    let v = char_vec(s);
    let mut r: Vec<String> = Vec::new();
    let mut from: usize = 0;
    proof {
        lemma_first_of_facts(s@, c);
        assert(s@.skip(0) =~= s@);
        assert(r.deep_view() + split_all(s@, c) =~= split_all(s@, c));
    }
    loop
        invariant
            v@ == s@,
            from <= v@.len(),
            r.deep_view() + split_all(s@.skip(from as int), c) == split_all(s@, c),
        decreases v@.len() - from,
    {
        let k: usize = find_from(&v, c, from);
        let piece = s.substring_char(from, k).to_owned();
        let ghost rest = s@.skip(from as int);
        let ghost before = r.deep_view();
        proof {
            lemma_first_of_facts(rest, c);
            assert(piece@ =~= rest.take(k - from));
        }
        if k == v.len() {
            r.push(piece);
            proof {
                assert(rest.take(k - from) =~= rest);
                assert(r.deep_view() =~= before + seq![rest]);
            }
            return r;
        }
        r.push(piece);
        proof {
            assert(rest.skip(k - from + 1) =~= s@.skip(k + 1));
            assert(first_of(rest, c) == k - from);
            assert(split_all(rest, c) == seq![piece@] + split_all(s@.skip(k + 1), c));
            assert(r.deep_view() =~= before + seq![piece@]);
            assert(before + split_all(rest, c) =~= r.deep_view() + split_all(s@.skip(k + 1), c));
        }
        from = k + 1;
    }
}

/// The piece before the first separator is the first of all pieces.
pub proof fn lemma_split_cons(a: Seq<char>, c: char, b: Seq<char>)
    requires
        !a.contains(c),
    ensures
        split_all(a + seq![c] + b, c) == seq![a] + split_all(b, c),
{
    let s = a + seq![c] + b;
    assert forall|j: int| 0 <= j < a.len() implies s[j] != c by {
        assert(s[j] == a[j]);
        assert(a.contains(a[j]));
    }
    lemma_first_of(s, c, a.len() as int);
    assert(s.take(a.len() as int) =~= a);
    assert(s.skip(a.len() as int + 1) =~= b);
}

/// A text without separators is its only piece.
pub proof fn lemma_split_single(a: Seq<char>, c: char)
    requires
        !a.contains(c),
    ensures
        split_all(a, c) == seq![a],
{
    lemma_first_of_facts(a, c);
}

/// There is at least one piece, no piece holds the separator, every piece is made
/// of characters of the text, and the last piece is what stands behind the last
/// separator.
pub proof fn lemma_split_pieces(s: Seq<char>, c: char)
    ensures
        split_all(s, c).len() >= 1,
        forall|i: int| 0 <= i < split_all(s, c).len() ==> !(#[trigger] split_all(s, c)[i]).contains(
            c,
        ),
        forall|i: int, x: char|
            0 <= i < split_all(s, c).len() && (#[trigger] split_all(s, c)[i]).contains(x)
                ==> #[trigger] s.contains(x),
        split_all(s, c).last() == s.skip(last_of(s, c) + 1),
        split_all(s, c)[0] == s.take(first_of(s, c)),
    decreases s.len(),
{
    lemma_first_of_facts(s, c);
    lemma_last_of_facts(s, c);
    let k = first_of(s, c);
    let all = split_all(s, c);
    if k < s.len() {
        let rest = s.skip(k + 1);
        lemma_split_pieces(rest, c);
        lemma_last_of_facts(rest, c);
        let tail = split_all(rest, c);
        assert(all =~= seq![s.take(k)] + tail);
        assert(all.last() == tail.last());
        let m = last_of(rest, c);
        assert(last_of(s, c) == k + 1 + m) by {
            assert forall|j: int| k + 1 + m < j < s.len() implies s[j] != c by {
                assert(rest[j - k - 1] == s[j]);
            }
            if m >= 0 {
                assert(rest[m] == s[k + 1 + m]);
            }
            lemma_last_of(s, c, k + 1 + m);
        }
        assert(rest.skip(m + 1) =~= s.skip(k + 1 + m + 1));
        assert forall|i: int| 0 <= i < all.len() implies !(#[trigger] all[i]).contains(c) by {
            if i > 0 {
                assert(all[i] == tail[i - 1]);
            }
        }
        assert forall|i: int, x: char|
            0 <= i < all.len() && (#[trigger] all[i]).contains(x) implies #[trigger] s.contains(
            x,
        ) by {
            if i > 0 {
                assert(all[i] == tail[i - 1]);
                assert(rest.contains(x));
                let j = choose|j: int| 0 <= j < rest.len() && rest[j] == x;
                assert(s[k + 1 + j] == x);
            } else {
                let j = choose|j: int| 0 <= j < all[0].len() && all[0][j] == x;
                assert(s[j] == x);
            }
        }
    } else {
        lemma_last_of(s, c, -1);
        assert(s.skip(0) =~= s);
        assert(s.take(k) =~= s);
    }
}

// ---------------------------------------------------------------------------
// White space
// ---------------------------------------------------------------------------

/// The text without its leading white space.
pub open spec fn trim_start(s: Seq<char>) -> Seq<char>
    decreases s.len(),
{
    if s.len() > 0 && is_white_space(s[0]) {
        trim_start(s.drop_first())
    } else {
        s
    }
}

/// The text without its trailing white space.
pub open spec fn trim_end(s: Seq<char>) -> Seq<char>
    decreases s.len(),
{
    if s.len() > 0 && is_white_space(s.last()) {
        trim_end(s.drop_last())
    } else {
        s
    }
}

/// The text without leading and trailing white space.
pub open spec fn trimmed(s: Seq<char>) -> Seq<char> {
    trim_end(trim_start(s))
}

proof fn lemma_trim_start(s: Seq<char>, i: int)
    requires
        0 <= i <= s.len(),
        forall|j: int| 0 <= j < i ==> is_white_space(s[j]),
        i < s.len() ==> !is_white_space(s[i]),
    ensures
        trim_start(s) == s.skip(i),
    decreases i,
{
    if i > 0 {
        lemma_trim_start(s.drop_first(), i - 1);
        assert(s.drop_first().skip(i - 1) =~= s.skip(i));
    } else {
        assert(s.skip(0) =~= s);
    }
}

proof fn lemma_trim_end(s: Seq<char>, i: int)
    requires
        0 <= i <= s.len(),
        forall|j: int| i <= j < s.len() ==> is_white_space(s[j]),
        i > 0 ==> !is_white_space(s[i - 1]),
    ensures
        trim_end(s) == s.take(i),
    decreases s.len(),
{
    if i < s.len() {
        lemma_trim_end(s.drop_last(), i);
        assert(s.drop_last().take(i) =~= s.take(i));
    } else {
        assert(s.take(i) =~= s);
    }
}

/// The text without leading and trailing white space.
pub fn trim(s: &str) -> (r: &str)
    ensures
        r@ == trimmed(s@),
{
    let v = char_vec(s);
    let mut i: usize = 0;
    while i < v.len() && v[i].is_whitespace()
        invariant
            i <= v@.len(),
            forall|j: int| 0 <= j < i ==> is_white_space(v@[j]),
        decreases v@.len() - i,
    {
        i = i + 1;
    }
    let mut k: usize = v.len();
    while k > i && v[k - 1].is_whitespace()
        invariant
            i <= k <= v@.len(),
            forall|j: int| k <= j < v@.len() ==> is_white_space(v@[j]),
        decreases k,
    {
        k = k - 1;
    }
    proof {
        lemma_trim_start(s@, i as int);
        let t = s@.skip(i as int);
        lemma_trim_end(t, k - i);
        assert(t.take(k - i) =~= s@.subrange(i as int, k as int));
    }
    s.substring_char(i, k)
}

/// A text that neither starts nor ends with white space is trimmed already.
pub proof fn lemma_trimmed_id(s: Seq<char>)
    requires
        s.len() > 0,
        !is_white_space(s[0]),
        !is_white_space(s.last()),
    ensures
        trimmed(s) == s,
{
}

/// A trimmed text neither starts nor ends with white space.
pub proof fn lemma_trimmed_ends(s: Seq<char>)
    ensures
        trimmed(s).len() > 0 ==> !is_white_space(trimmed(s)[0]) && !is_white_space(
            trimmed(s).last(),
        ),
        trimmed(trimmed(s)) == trimmed(s),
{
    lemma_trim_start_head(s);
    lemma_trim_end_keeps_head(trim_start(s));
}

proof fn lemma_trim_start_head(s: Seq<char>)
    ensures
        trim_start(s).len() > 0 ==> !is_white_space(trim_start(s)[0]),
    decreases s.len(),
{
    if s.len() > 0 && is_white_space(s[0]) {
        lemma_trim_start_head(s.drop_first());
    }
}

proof fn lemma_trim_end_keeps_head(s: Seq<char>)
    ensures
        trim_end(s).len() > 0 ==> trim_end(s)[0] == s[0] && !is_white_space(trim_end(s).last()),
        trim_end(trim_end(s)) == trim_end(s),
    decreases s.len(),
{
    if s.len() > 0 && is_white_space(s.last()) {
        lemma_trim_end_keeps_head(s.drop_last());
    }
}

/// The index of the first white space, or the length.
pub open spec fn first_space(s: Seq<char>) -> int
    decreases s.len(),
{
    if s.len() == 0 || is_white_space(s[0]) {
        0
    } else {
        1 + first_space(s.drop_first())
    }
}

proof fn lemma_first_space(s: Seq<char>, k: int)
    requires
        0 <= k <= s.len(),
        forall|j: int| 0 <= j < k ==> !is_white_space(s[j]),
        k < s.len() ==> is_white_space(s[k]),
    ensures
        first_space(s) == k,
    decreases k,
{
    if k > 0 {
        lemma_first_space(s.drop_first(), k - 1);
    }
}

proof fn lemma_first_space_facts(s: Seq<char>)
    ensures
        0 <= first_space(s) <= s.len(),
        s.len() > 0 && !is_white_space(s[0]) ==> first_space(s) > 0,
    decreases s.len(),
{
    if s.len() > 0 && !is_white_space(s[0]) {
        lemma_first_space_facts(s.drop_first());
    }
}

proof fn lemma_trim_start_len(s: Seq<char>)
    ensures
        trim_start(s).len() <= s.len(),
    decreases s.len(),
{
    if s.len() > 0 && is_white_space(s[0]) {
        lemma_trim_start_len(s.drop_first());
    }
}

/// The maximal runs of characters that are not white space.
pub open spec fn words(s: Seq<char>) -> Seq<Seq<char>>
    decreases s.len(),
    via words_decreases
{
    let t = trim_start(s);
    if t.len() == 0 {
        Seq::empty()
    } else {
        seq![t.take(first_space(t))] + words(t.skip(first_space(t)))
    }
}

#[via_fn]
proof fn words_decreases(s: Seq<char>) {
    lemma_trim_start_len(s);
    lemma_trim_start_head(s);
    lemma_first_space_facts(trim_start(s));
}

/// The maximal runs of characters that are not white space, in order.
pub fn split_words(s: &str) -> (r: Vec<String>)
    ensures
        r.deep_view() == words(s@),
{
    let v = char_vec(s);
    let mut r: Vec<String> = Vec::new();
    let mut from: usize = 0;
    proof {
        assert(s@.skip(0) =~= s@);
        assert(r.deep_view() + words(s@) =~= words(s@));
    }
    loop
        invariant
            v@ == s@,
            from <= v@.len(),
            r.deep_view() + words(s@.skip(from as int)) == words(s@),
        decreases v@.len() - from,
    {
        let ghost rest = s@.skip(from as int);
        let ghost before = r.deep_view();
        let mut i: usize = from;
        while i < v.len() && v[i].is_whitespace()
            invariant
                from <= i <= v@.len(),
                forall|j: int| from <= j < i ==> is_white_space(v@[j]),
            decreases v@.len() - i,
        {
            i = i + 1;
        }
        proof {
            lemma_trim_start(rest, i - from);
            assert(rest.skip(i - from) =~= s@.skip(i as int));
        }
        if i == v.len() {
            proof {
                assert(before + words(rest) =~= before);
            }
            return r;
        }
        let mut k: usize = i;
        while k < v.len() && !v[k].is_whitespace()
            invariant
                i <= k <= v@.len(),
                forall|j: int| i <= j < k ==> !is_white_space(v@[j]),
            decreases v@.len() - k,
        {
            k = k + 1;
        }
        let piece = s.substring_char(i, k).to_owned();
        let ghost t = s@.skip(i as int);
        proof {
            lemma_first_space(t, k - i);
            assert(t.take(k - i) =~= piece@);
            assert(t.skip(k - i) =~= s@.skip(k as int));
        }
        r.push(piece);
        proof {
            assert(r.deep_view() =~= before + seq![piece@]);
            assert(before + words(rest) =~= r.deep_view() + words(s@.skip(k as int)));
        }
        from = k;
    }
}

// ---------------------------------------------------------------------------
// Prefixes and suffixes
// ---------------------------------------------------------------------------

/// Whether `p` is a prefix of `s`.
pub open spec fn has_prefix(s: Seq<char>, p: Seq<char>) -> bool {
    p.len() <= s.len() && s.take(p.len() as int) == p
}

/// Whether `s` starts with `p`.
pub fn starts_with(s: &str, p: &str) -> (r: bool)
    ensures
        r == has_prefix(s@, p@),
{
    let a = char_vec(s);
    let b = char_vec(p);
    if b.len() > a.len() {
        return false;
    }
    for i in 0..b.len()
        invariant
            b@.len() <= a@.len(),
            a@ == s@,
            b@ == p@,
            forall|j: int| 0 <= j < i ==> a@[j] == b@[j],
    {
        if a[i] != b[i] {
            proof {
                assert(s@.take(p@.len() as int)[i as int] != p@[i as int]);
            }
            return false;
        }
    }
    proof {
        assert(s@.take(p@.len() as int) =~= p@);
    }
    true
}

/// The text behind the prefix `p`, where `s` has it.
pub fn strip_prefix(s: &str, p: &str) -> (r: Option<String>)
    ensures
        r.deep_view() == (if has_prefix(s@, p@) {
            Some(s@.skip(p@.len() as int))
        } else {
            None
        }),
{
    if starts_with(s, p) {
        let n: usize = p.unicode_len();
        let m: usize = s.unicode_len();
        let t = s.substring_char(n, m).to_owned();
        proof {
            assert(t@ =~= s@.skip(p@.len() as int));
        }
        Some(t)
    } else {
        None
    }
}

/// Whether `p` occurs in `s` at some position.
pub open spec fn has_text(s: Seq<char>, p: Seq<char>) -> bool {
    exists|i: int| 0 <= i <= s.len() && has_prefix(#[trigger] s.skip(i), p)
}

/// Whether `s` contains `p`.
pub fn contains_text(s: &str, p: &str) -> (r: bool)
    ensures
        r == has_text(s@, p@),
{
    let n: usize = s.unicode_len();
    let mut i: usize = 0;
    while i <= n
        invariant
            n == s@.len(),
            i <= n + 1,
            forall|j: int| 0 <= j < i ==> !has_prefix(#[trigger] s@.skip(j), p@),
        decreases n + 1 - i,
    {
        let t = s.substring_char(i, n);
        proof {
            assert(t@ =~= s@.skip(i as int));
        }
        if starts_with(t, p) {
            return true;
        }
        if i == n {
            return false;
        }
        i = i + 1;
    }
    false
}

// ---------------------------------------------------------------------------
// Numbers
// ---------------------------------------------------------------------------

/// Whether a character is a decimal digit.
pub open spec fn is_digit(c: char) -> bool {
    '0' <= c <= '9'
}

/// Whether every character is a decimal digit.
pub open spec fn all_digits(s: Seq<char>) -> bool {
    forall|i: int| 0 <= i < s.len() ==> is_digit(#[trigger] s[i])
}

/// The value of a sequence of decimal digits.
pub open spec fn digits_value(s: Seq<char>) -> nat
    decreases s.len(),
{
    if s.len() == 0 {
        0
    } else {
        digits_value(s.drop_last()) * 10 + (s.last() as u32 - 48) as nat
    }
}

/// A numeral without sign: at least one digit and nothing else.
pub open spec fn unsigned_value(s: Seq<char>) -> Option<nat> {
    if s.len() > 0 && all_digits(s) {
        Some(digits_value(s))
    } else {
        None
    }
}

/// The natural number that a text denotes, with an optional leading `+`, where
/// it does not exceed `max`.
pub open spec fn parsed_nat(s: Seq<char>, max: nat) -> Option<nat> {
    let body = if s.len() > 0 && s[0] == '+' {
        s.skip(1)
    } else {
        s
    };
    match unsigned_value(body) {
        Some(v) => if v <= max {
            Some(v)
        } else {
            None
        },
        None => None,
    }
}

/// The integer that a text denotes, with an optional leading sign, where it lies
/// in the range of a 32-bit signed integer.
pub open spec fn parsed_i32(s: Seq<char>) -> Option<int> {
    if s.len() > 0 && s[0] == '-' {
        match unsigned_value(s.skip(1)) {
            Some(v) => if v <= 0x8000_0000 {
                Some(-v)
            } else {
                None
            },
            None => None,
        }
    } else {
        match parsed_nat(s, 0x7fff_ffff) {
            Some(v) => Some(v as int),
            None => None,
        }
    }
}

proof fn lemma_digits_value_grows(s: Seq<char>, k: int)
    requires
        0 <= k <= s.len(),
        all_digits(s),
    ensures
        digits_value(s) >= digits_value(s.take(k)),
    decreases s.len(),
{
    if k < s.len() {
        lemma_digits_value_grows(s.drop_last(), k);
        assert(s.drop_last().take(k) =~= s.take(k));
    } else {
        assert(s.take(k) =~= s);
    }
}

/// The value of the digits from `from` on, where they make a numeral of at most `max`.
fn parse_digits(v: &Vec<char>, from: usize, max: u64) -> (r: Option<u64>)
    requires
        from <= v@.len(),
    ensures
        ({
            let body = v@.skip(from as int);
            match unsigned_value(body) {
                Some(n) => if n <= max {
                    r == Some(n as u64)
                } else {
                    r is None
                },
                None => r is None,
            }
        }),
{
    let ghost body = v@.skip(from as int);
    if from == v.len() {
        return None;
    }
    let mut acc: u64 = 0;
    let mut i: usize = from;
    proof {
        assert(body.take(0) =~= Seq::empty());
    }
    while i < v.len()
        invariant
            from <= i <= v@.len(),
            body == v@.skip(from as int),
            forall|j: int| 0 <= j < i - from ==> is_digit(#[trigger] body[j]),
            acc == digits_value(body.take(i - from)),
            acc <= max,
        decreases v@.len() - i,
    {
        let c = v[i];
        proof {
            assert(c == body[i - from]);
        }
        if !('0' <= c && c <= '9') {
            return None;
        }
        let d: u64 = (c as u32 - 48) as u64;
        let ghost k = i - from;
        proof {
            assert(body.take(k + 1).drop_last() =~= body.take(k));
            assert(body.take(k + 1).last() == c);
            assert(digits_value(body.take(k + 1)) == acc * 10 + d);
        }
        if d > max || acc > (max - d) / 10 {
            proof {
                assert(digits_value(body.take(k + 1)) > max);
                if all_digits(body) {
                    lemma_digits_value_grows(body, k + 1);
                }
            }
            return None;
        }
        acc = acc * 10 + d;
        i = i + 1;
    }
    proof {
        assert(body.take(body.len() as int) =~= body);
    }
    Some(acc)
}

/// The number that a text denotes, where it does not exceed `max`.
pub fn parse_unsigned(s: &str, max: u64) -> (r: Option<u64>)
    ensures
        match parsed_nat(s@, max as nat) {
            Some(n) => r == Some(n as u64),
            None => r is None,
        },
        r matches Some(n) ==> n <= max,
{
    let v = char_vec(s);
    if v.len() > 0 && v[0] == '+' {
        parse_digits(&v, 1, max)
    } else {
        proof {
            assert(v@.skip(0) =~= v@);
        }
        parse_digits(&v, 0, max)
    }
}

/// The 32-bit signed number that a text denotes.
pub fn parse_i32(s: &str) -> (r: Option<i32>)
    ensures
        match parsed_i32(s@) {
            Some(n) => r == Some(n as i32),
            None => r is None,
        },
{
    let v = char_vec(s);
    if v.len() > 0 && v[0] == '-' {
        match parse_digits(&v, 1, 0x8000_0000) {
            Some(n) => Some((-(n as i64)) as i32),
            None => None,
        }
    } else {
        match parse_unsigned(s, 0x7fff_ffff) {
            Some(n) => Some(n as i32),
            None => None,
        }
    }
}

/// The decimal numeral of a number consists of digits and has the number's value.
pub proof fn lemma_decimal_value(n: nat)
    ensures
        decimal(n).len() > 0,
        all_digits(decimal(n)),
        digits_value(decimal(n)) == n,
    decreases n,
{
    if n < 10 {
        let s = decimal(n);
        assert(s.drop_last() =~= Seq::empty());
        assert(digits_value(s.drop_last()) == 0);
        assert(s.last() as u32 == 48 + n);
    } else {
        lemma_decimal_value(n / 10);
        let s = decimal(n);
        assert(s.drop_last() =~= decimal(n / 10));
        assert(s.last() == digit_char((n % 10) as int));
        assert(s.last() as u32 == 48 + n % 10);
        assert forall|i: int| 0 <= i < s.len() implies is_digit(#[trigger] s[i]) by {
            if i < s.len() - 1 {
                assert(s[i] == decimal(n / 10)[i]);
            }
        }
    }
}

/// Parsing the numeral of a number gives the number back.
pub proof fn decimal_parses_back(n: nat, max: nat)
    requires
        n <= max,
    ensures
        parsed_nat(decimal(n), max) == Some(n),
{
    lemma_decimal_value(n);
    assert(is_digit(decimal(n)[0]));
}

/// Parsing the numeral of a 32-bit signed number gives the number back.
pub proof fn int_text_parses_back(i: i32)
    ensures
        parsed_i32(int_text(i as int)) == Some(i as int),
{
    if i < 0 {
        let m = (-(i as int)) as nat;
        lemma_decimal_value(m);
        assert((seq!['-'] + decimal(m)).skip(1) =~= decimal(m));
    } else {
        decimal_parses_back(i as nat, 0x7fff_ffff);
        lemma_decimal_value(i as nat);
        assert(is_digit(decimal(i as nat)[0]));
    }
}

/// White space before and behind a text is trimmed off, and nothing else.
pub proof fn only_white_space_is_trimmed(a: Seq<char>, s: Seq<char>, b: Seq<char>)
    requires
        forall|i: int| 0 <= i < a.len() ==> is_white_space(#[trigger] a[i]),
        forall|i: int| 0 <= i < b.len() ==> is_white_space(#[trigger] b[i]),
        s.len() > 0,
        !is_white_space(s[0]),
        !is_white_space(s.last()),
    ensures
        trimmed(a + s + b) == s,
{
    let text = a + s + b;
    assert forall|j: int| 0 <= j < a.len() implies is_white_space(text[j]) by {
        assert(text[j] == a[j]);
    }
    assert(text[a.len() as int] == s[0]);
    lemma_trim_start(text, a.len() as int);
    let t = text.skip(a.len() as int);
    assert(t == s + b);
    assert forall|j: int| s.len() <= j < t.len() implies is_white_space(t[j]) by {
        assert(t[j] == b[j - s.len()]);
    }
    assert(t[s.len() - 1] == s.last());
    lemma_trim_end(t, s.len() as int);
    assert(t.take(s.len() as int) == s);
}

/// Words are what stands between white space: a run of other characters up to the next
/// white space is one word, and white space before it is skipped.
pub proof fn words_stand_between_white_space(word: Seq<char>, c: char, rest: Seq<char>)
    requires
        word.len() > 0,
        forall|i: int| 0 <= i < word.len() ==> !is_white_space(#[trigger] word[i]),
        is_white_space(c),
    ensures
        words(word) == seq![word],
        words(word + seq![c] + rest) == seq![word] + words(rest),
        words(seq![c] + rest) == words(rest),
        words(Seq::<char>::empty()).len() == 0,
{
    assert(trim_start(word) == word);
    lemma_first_space(word, word.len() as int);
    assert(word.take(word.len() as int) == word);
    assert(word.skip(word.len() as int) == Seq::<char>::empty());
    assert(trim_start(Seq::<char>::empty()) == Seq::<char>::empty());
    assert(words(Seq::<char>::empty()) == Seq::<Seq<char>>::empty());
    assert(seq![word] + Seq::<Seq<char>>::empty() == seq![word]);
    let spaced = seq![c] + rest;
    assert(spaced.drop_first() == rest);
    assert(trim_start(spaced) == trim_start(rest));
    let text = word + seq![c] + rest;
    assert(text[0] == word[0]);
    assert(trim_start(text) == text);
    assert forall|j: int| 0 <= j < word.len() implies !is_white_space(text[j]) by {
        assert(text[j] == word[j]);
    }
    assert(text[word.len() as int] == c);
    lemma_first_space(text, word.len() as int);
    assert(text.take(word.len() as int) == word);
    assert(text.skip(word.len() as int) == spaced);
    assert(words(spaced) == words(rest));
    assert(words(text) == seq![word] + words(spaced));
}

} // verus!
